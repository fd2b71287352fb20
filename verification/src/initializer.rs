//! Creating a project: make its directory, then let the external tool
//! scaffold it there. As with install tasks, the decisions are a state
//! machine and the caller performs what it asks for.

use vstd::prelude::*;
use vstd::string::StringExecFns;
use crate::installer::{init_arguments, init_arguments_of, TOOL_PROGRAM};
use crate::status::{created_line, created_line_of, SegmentView, StatusLine};
use crate::views::{option_view, texts_of};

verus! {

/// Why a project was not created.
#[derive(Debug, PartialEq, Eq)]
pub enum InitError {
    /// The directory could not be made (it exists already, permission was
    /// denied, ...). The scaffolding tool was never run.
    DirectoryNotCreated { reason: String },
    /// The directory was made, but the scaffolding tool could not be started.
    ScaffoldNotStarted { reason: String },
    /// The scaffolding tool ran and did not report success.
    ScaffoldFailed,
}

/// Mathematical form of an [`InitError`].
pub ghost enum InitErrorView {
    DirectoryNotCreated { reason: Seq<char> },
    ScaffoldNotStarted { reason: Seq<char> },
    ScaffoldFailed,
}

impl View for InitError {
    type V = InitErrorView;

    open spec fn view(&self) -> InitErrorView {
        match self {
            InitError::DirectoryNotCreated { reason } => InitErrorView::DirectoryNotCreated {
                reason: reason@,
            },
            InitError::ScaffoldNotStarted { reason } => InitErrorView::ScaffoldNotStarted {
                reason: reason@,
            },
            InitError::ScaffoldFailed => InitErrorView::ScaffoldFailed,
        }
    }
}

/// Where the creation of a project stands.
#[derive(Debug, PartialEq, Eq)]
pub enum InitPhase {
    /// Nothing has been done yet.
    Pending,
    /// The directory is being made.
    MakingDirectory,
    /// The scaffolding tool is running inside the directory.
    Scaffolding,
    /// Terminal: the project exists and is scaffolded.
    Done,
    /// Terminal: the project was not created.
    Failed { error: InitError },
}

/// Mathematical form of an [`InitPhase`].
pub ghost enum InitPhaseView {
    Pending,
    MakingDirectory,
    Scaffolding,
    Done,
    Failed { error: InitErrorView },
}

impl View for InitPhase {
    type V = InitPhaseView;

    open spec fn view(&self) -> InitPhaseView {
        match self {
            InitPhase::Pending => InitPhaseView::Pending,
            InitPhase::MakingDirectory => InitPhaseView::MakingDirectory,
            InitPhase::Scaffolding => InitPhaseView::Scaffolding,
            InitPhase::Done => InitPhaseView::Done,
            InitPhase::Failed { error } => InitPhaseView::Failed { error: error@ },
        }
    }
}

/// What happened since the last step.
#[derive(Debug, PartialEq, Eq)]
pub enum InitEvent {
    /// The creation was started.
    Begin,
    /// The directory was made.
    DirectoryCreated,
    /// The directory could not be made.
    DirectoryRefused { reason: String },
    /// The scaffolding tool ended.
    ScaffoldExited { success: bool },
    /// The scaffolding tool could not be started.
    ScaffoldNotStarted { reason: String },
}

/// Mathematical form of an [`InitEvent`].
pub ghost enum InitEventView {
    Begin,
    DirectoryCreated,
    DirectoryRefused { reason: Seq<char> },
    ScaffoldExited { success: bool },
    ScaffoldNotStarted { reason: Seq<char> },
}

impl View for InitEvent {
    type V = InitEventView;

    open spec fn view(&self) -> InitEventView {
        match self {
            InitEvent::Begin => InitEventView::Begin,
            InitEvent::DirectoryCreated => InitEventView::DirectoryCreated,
            InitEvent::DirectoryRefused { reason } => InitEventView::DirectoryRefused {
                reason: reason@,
            },
            InitEvent::ScaffoldExited { success } => InitEventView::ScaffoldExited {
                success: *success,
            },
            InitEvent::ScaffoldNotStarted { reason } => InitEventView::ScaffoldNotStarted {
                reason: reason@,
            },
        }
    }
}

/// What the caller is to do after a step.
#[derive(Debug, PartialEq, Eq)]
pub enum InitAction {
    /// Make a directory called `name` in the current directory and report
    /// [`InitEvent::DirectoryCreated`] or [`InitEvent::DirectoryRefused`].
    MakeDirectory { name: String },
    /// Run `program` with `arguments` inside `directory` and report
    /// [`InitEvent::ScaffoldExited`] or [`InitEvent::ScaffoldNotStarted`].
    RunScaffold { program: String, arguments: Vec<String>, directory: String },
    /// The project exists; show `line`.
    Announce { line: StatusLine },
    /// The project was not created; end with `error`.
    Abort { error: InitError },
}

/// Mathematical form of an [`InitAction`].
pub ghost enum InitActionView {
    MakeDirectory { name: Seq<char> },
    RunScaffold { program: Seq<char>, arguments: Seq<Seq<char>>, directory: Seq<char> },
    Announce { line: Seq<SegmentView> },
    Abort { error: InitErrorView },
}

impl View for InitAction {
    type V = InitActionView;

    open spec fn view(&self) -> InitActionView {
        match self {
            InitAction::MakeDirectory { name } => InitActionView::MakeDirectory { name: name@ },
            InitAction::RunScaffold { program, arguments, directory } => InitActionView::RunScaffold {
                program: program@,
                arguments: texts_of(arguments@),
                directory: directory@,
            },
            InitAction::Announce { line } => InitActionView::Announce { line: line@ },
            InitAction::Abort { error } => InitActionView::Abort { error: error@ },
        }
    }
}

/// The creation of one project.
#[derive(Debug)]
pub struct ProjectInit {
    name: String,
    phase: InitPhase,
}

/// Mathematical form of a [`ProjectInit`].
pub ghost struct ProjectInitView {
    pub name: Seq<char>,
    pub phase: InitPhaseView,
}

impl View for ProjectInit {
    type V = ProjectInitView;

    closed spec fn view(&self) -> ProjectInitView {
        ProjectInitView { name: self.name@, phase: self.phase@ }
    }
}

/// The creation of the project `name` before anything was done.
pub open spec fn pending_init(name: Seq<char>) -> ProjectInitView {
    ProjectInitView { name, phase: InitPhaseView::Pending }
}

/// The creation of a project, moved to `phase`.
pub open spec fn init_at(init: ProjectInitView, phase: InitPhaseView) -> ProjectInitView {
    ProjectInitView { name: init.name, phase }
}

/// One step of a project's creation: the state after `event`, and the
/// action it asks for. An event that the phase does not wait for changes
/// nothing and asks for nothing.
pub open spec fn init_step(init: ProjectInitView, event: InitEventView) -> (
    ProjectInitView,
    Option<InitActionView>,
) {
    match (init.phase, event) {
        (InitPhaseView::Pending, InitEventView::Begin) => (
            init_at(init, InitPhaseView::MakingDirectory),
            Some(InitActionView::MakeDirectory { name: init.name }),
        ),
        (InitPhaseView::MakingDirectory, InitEventView::DirectoryCreated) => (
            init_at(init, InitPhaseView::Scaffolding),
            Some(
                InitActionView::RunScaffold {
                    program: TOOL_PROGRAM@,
                    arguments: init_arguments_of(),
                    directory: init.name,
                },
            ),
        ),
        (InitPhaseView::MakingDirectory, InitEventView::DirectoryRefused { reason }) => {
            let error = InitErrorView::DirectoryNotCreated { reason };
            (init_at(init, InitPhaseView::Failed { error }), Some(InitActionView::Abort { error }))
        },
        (InitPhaseView::Scaffolding, InitEventView::ScaffoldExited { success }) => {
            if success {
                (
                    init_at(init, InitPhaseView::Done),
                    Some(InitActionView::Announce { line: created_line_of(init.name) }),
                )
            } else {
                let error = InitErrorView::ScaffoldFailed;
                (
                    init_at(init, InitPhaseView::Failed { error }),
                    Some(InitActionView::Abort { error }),
                )
            }
        },
        (InitPhaseView::Scaffolding, InitEventView::ScaffoldNotStarted { reason }) => {
            let error = InitErrorView::ScaffoldNotStarted { reason };
            (init_at(init, InitPhaseView::Failed { error }), Some(InitActionView::Abort { error }))
        },
        _ => (init, None),
    }
}

/// How the creation ended: nothing while it is under way, `Ok` once the
/// project exists, the error once it has failed.
pub open spec fn init_result_of(phase: InitPhaseView) -> Option<Result<(), InitErrorView>> {
    match phase {
        InitPhaseView::Done => Some(Ok(())),
        InitPhaseView::Failed { error } => Some(Err(error)),
        _ => None,
    }
}

/// The mathematical form of an optional result of a creation.
pub open spec fn init_result_view(result: Option<Result<(), InitError>>) -> Option<
    Result<(), InitErrorView>,
> {
    match result {
        Some(Ok(_)) => Some(Ok(())),
        Some(Err(error)) => Some(Err(error@)),
        None => None,
    }
}

/// What is told of `error` to the person who asked for the project.
pub open spec fn init_error_text(error: InitErrorView) -> Seq<char> {
    match error {
        InitErrorView::DirectoryNotCreated { reason } => "cannot create the project directory: "@
            + reason,
        InitErrorView::ScaffoldNotStarted { reason } => "cannot run the scaffolding tool: "@
            + reason,
        InitErrorView::ScaffoldFailed => "the scaffolding tool did not succeed"@,
    }
}

impl InitError {
    /// Describes the error in a sentence.
    pub fn describe(&self) -> (text: String)
        ensures
            text@ == init_error_text(self@),
    {
        match self {
            InitError::DirectoryNotCreated { reason } => {
                let mut text = String::from_str("cannot create the project directory: ");
                text.append(reason.as_str());
                text
            },
            InitError::ScaffoldNotStarted { reason } => {
                let mut text = String::from_str("cannot run the scaffolding tool: ");
                text.append(reason.as_str());
                text
            },
            InitError::ScaffoldFailed => String::from_str("the scaffolding tool did not succeed"),
        }
    }
}

impl Clone for InitError {
    fn clone(&self) -> (copy: InitError)
        ensures
            copy@ == self@,
    {
        match self {
            InitError::DirectoryNotCreated { reason } => InitError::DirectoryNotCreated {
                reason: reason.clone(),
            },
            InitError::ScaffoldNotStarted { reason } => InitError::ScaffoldNotStarted {
                reason: reason.clone(),
            },
            InitError::ScaffoldFailed => InitError::ScaffoldFailed,
        }
    }
}

impl ProjectInit {
    /// Prepares the creation of the project `name`. The name is taken as it
    /// is; whether it can name a directory is for the host to decide when
    /// the directory is made.
    pub fn new(name: String) -> (init: ProjectInit)
        ensures
            init@ == pending_init(name@),
    {
        ProjectInit { name, phase: InitPhase::Pending }
    }

    /// The project's name, which is also the name of its directory.
    pub fn name(&self) -> (name: &str)
        ensures
            name@ == self@.name,
    {
        self.name.as_str()
    }

    /// Where the creation stands.
    pub fn phase(&self) -> (phase: &InitPhase)
        ensures
            phase@ == self@.phase,
    {
        &self.phase
    }

    /// How the creation ended, if it has.
    pub fn result(&self) -> (result: Option<Result<(), InitError>>)
        ensures
            init_result_view(result) == init_result_of(self@.phase),
    {
        match &self.phase {
            InitPhase::Done => Some(Ok(())),
            InitPhase::Failed { error } => Some(Err(error.clone())),
            _ => None,
        }
    }

    /// Takes `event` and answers with the action to perform, as
    /// [`init_step`] defines it.
    pub fn step(&mut self, event: InitEvent) -> (action: Option<InitAction>)
        ensures
            final(self)@ == init_step(old(self)@, event@).0,
            option_view(action) == init_step(old(self)@, event@).1,
    {
        let mut phase = InitPhase::Pending;
        core::mem::swap(&mut self.phase, &mut phase);
        match (phase, event) {
            (InitPhase::Pending, InitEvent::Begin) => {
                self.phase = InitPhase::MakingDirectory;
                Some(InitAction::MakeDirectory { name: self.name.clone() })
            },
            (InitPhase::MakingDirectory, InitEvent::DirectoryCreated) => {
                self.phase = InitPhase::Scaffolding;
                Some(
                    InitAction::RunScaffold {
                        program: String::from_str(TOOL_PROGRAM),
                        arguments: init_arguments(),
                        directory: self.name.clone(),
                    },
                )
            },
            (InitPhase::MakingDirectory, InitEvent::DirectoryRefused { reason }) => {
                let error = InitError::DirectoryNotCreated { reason };
                let reported = error.clone();
                self.phase = InitPhase::Failed { error };
                Some(InitAction::Abort { error: reported })
            },
            (InitPhase::Scaffolding, InitEvent::ScaffoldExited { success }) => {
                if success {
                    self.phase = InitPhase::Done;
                    Some(InitAction::Announce { line: created_line(self.name.as_str()) })
                } else {
                    self.phase = InitPhase::Failed { error: InitError::ScaffoldFailed };
                    Some(InitAction::Abort { error: InitError::ScaffoldFailed })
                }
            },
            (InitPhase::Scaffolding, InitEvent::ScaffoldNotStarted { reason }) => {
                let error = InitError::ScaffoldNotStarted { reason };
                let reported = error.clone();
                self.phase = InitPhase::Failed { error };
                Some(InitAction::Abort { error: reported })
            },
            (other, _) => {
                self.phase = other;
                None
            },
        }
    }
}

/// Whether the creation has ended: the project exists, or it has failed.
pub open spec fn init_is_terminal(phase: InitPhaseView) -> bool {
    phase is Done || phase is Failed
}

/// The creation after it has taken `events` one after the other.
pub open spec fn init_run(init: ProjectInitView, events: Seq<InitEventView>) -> ProjectInitView
    decreases events.len(),
{
    if events.len() == 0 {
        init
    } else {
        init_step(init_run(init, events.drop_last()), events.last()).0
    }
}

/// What the creation asked for at each of `events`, in order.
pub open spec fn init_actions(init: ProjectInitView, events: Seq<InitEventView>) -> Seq<
    Option<InitActionView>,
>
    decreases events.len(),
{
    if events.len() == 0 {
        Seq::empty()
    } else {
        init_actions(init, events.drop_last()).push(
            init_step(init_run(init, events.drop_last()), events.last()).1,
        )
    }
}

/// The events of a creation whose directory could not be made, followed by
/// whatever is reported afterwards.
pub open spec fn refused_script(reason: Seq<char>, later: Seq<InitEventView>) -> Seq<InitEventView> {
    seq![InitEventView::Begin, InitEventView::DirectoryRefused { reason }] + later
}

/// A creation that has ended takes no further event and asks for nothing.
pub proof fn lemma_ended_init_is_final(init: ProjectInitView, event: InitEventView)
    requires
        init_is_terminal(init.phase),
    ensures
        init_step(init, event) == (init, None::<InitActionView>),
{
}

/// The scaffolding tool is asked for in one situation only: the directory
/// was being made and is reported as created. It is then run inside that
/// directory, with the arguments that accept every default.
pub proof fn lemma_scaffold_needs_directory(init: ProjectInitView, event: InitEventView)
    ensures
        (init_step(init, event).1 matches Some(InitActionView::RunScaffold { .. })) <==> (
        init.phase is MakingDirectory && event is DirectoryCreated),
        init.phase is MakingDirectory && event is DirectoryCreated ==> init_step(init, event).1
            == Some(
            InitActionView::RunScaffold {
                program: TOOL_PROGRAM@,
                arguments: init_arguments_of(),
                directory: init.name,
            },
        ),
{
}

/// Where the directory cannot be made, for one because it exists already,
/// the creation fails with that error before any tool is run: the first
/// request is for the directory, the second ends the creation, and nothing
/// is asked for after that, whatever is reported.
pub proof fn lemma_refused_directory_runs_nothing(
    name: Seq<char>,
    reason: Seq<char>,
    later: Seq<InitEventView>,
)
    ensures
        ({
            let events = refused_script(reason, later);
            let error = InitErrorView::DirectoryNotCreated { reason };
            let ended = init_run(pending_init(name), events);
            let actions = init_actions(pending_init(name), events);
            &&& ended == init_at(pending_init(name), InitPhaseView::Failed { error })
            &&& init_result_of(ended.phase) == Some(Err::<(), InitErrorView>(error))
            &&& actions.len() == events.len()
            &&& actions[0] == Some(InitActionView::MakeDirectory { name })
            &&& actions[1] == Some(InitActionView::Abort { error })
            &&& forall|k: int| 2 <= k < actions.len() ==> #[trigger] actions[k] is None
            &&& forall|k: int|
                0 <= k < actions.len() ==> !(#[trigger] actions[k] matches Some(
                    InitActionView::RunScaffold { .. },
                ))
        }),
    decreases later.len(),
{
    let created = pending_init(name);
    let events = refused_script(reason, later);
    if later.len() == 0 {
        let begun = events.drop_last();
        assert(begun.drop_last() =~= Seq::<InitEventView>::empty());
        assert(begun.last() == InitEventView::Begin);
        assert(events.last() == InitEventView::DirectoryRefused { reason });
        reveal_with_fuel(init_run, 3);
        reveal_with_fuel(init_actions, 3);
    } else {
        lemma_refused_directory_runs_nothing(name, reason, later.drop_last());
        assert(events.drop_last() =~= refused_script(reason, later.drop_last()));
        assert(events.last() == later.last());
    }
}

} // verus!
