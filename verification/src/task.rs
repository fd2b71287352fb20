//! The unit of work for one install target, as a state machine.
//!
//! A task never performs input or output. Each step takes what happened (the
//! task was launched, the metadata lookup returned, the installer exited),
//! moves the task on, writes the target's progress handle, and answers with
//! the action that the caller is to perform next.

use vstd::prelude::*;
use vstd::string::StringExecFns;
use vstd::utf8::{decode_utf8, valid_utf8};
use crate::installer::{
    diagnostic_text, install_arguments, install_arguments_of, lossy_text_of, InstallerExit,
    InstallerExitView, INSTALL_COMMAND, TOOL_PROGRAM,
};
use crate::progress::{after_finish, after_message, fresh_handle, ProgressHandle, ProgressHandleView};
use crate::registry::{
    metadata_url, metadata_url_of, resolve_version, resolved_version, MetadataLookup,
    MetadataLookupView, VersionInfo, VersionInfoView, VersionSource, DEFAULT_VERSION,
};
use crate::status::{
    failure_line, failure_line_of, fetching_line, fetching_line_of, installing_line,
    installing_line_of, success_line, success_line_of,
};
use crate::views::{option_view, texts_of};

verus! {

/// Where a task stands.
#[derive(Debug, PartialEq, Eq)]
pub enum Phase {
    /// The handle exists; no work has begun.
    Created,
    /// The metadata lookup is under way.
    Fetching,
    /// The installer is running for `version`.
    Installing { version: VersionInfo },
    /// Terminal: the installer reported success.
    Finished { version: VersionInfo },
    /// Terminal: the installer did not report success; `reason` is what it
    /// wrote to standard error.
    Failed { version: VersionInfo, reason: String },
}

/// Mathematical form of a [`Phase`].
pub ghost enum PhaseView {
    Created,
    Fetching,
    Installing { version: VersionInfoView },
    Finished { version: VersionInfoView },
    Failed { version: VersionInfoView, reason: Seq<char> },
}

impl View for Phase {
    type V = PhaseView;

    open spec fn view(&self) -> PhaseView {
        match self {
            Phase::Created => PhaseView::Created,
            Phase::Fetching => PhaseView::Fetching,
            Phase::Installing { version } => PhaseView::Installing { version: version@ },
            Phase::Finished { version } => PhaseView::Finished { version: version@ },
            Phase::Failed { version, reason } => PhaseView::Failed {
                version: version@,
                reason: reason@,
            },
        }
    }
}

/// Whether `phase` is terminal: finished or failed.
pub open spec fn is_terminal(phase: PhaseView) -> bool {
    phase is Finished || phase is Failed
}

/// The result of one target.
#[derive(Debug, PartialEq, Eq)]
pub enum TaskOutcome {
    /// Installed; holds the version label.
    Success(String),
    /// Not installed; holds the reason.
    Failure(String),
}

/// Mathematical form of a [`TaskOutcome`].
pub ghost enum TaskOutcomeView {
    Success(Seq<char>),
    Failure(Seq<char>),
}

impl View for TaskOutcome {
    type V = TaskOutcomeView;

    open spec fn view(&self) -> TaskOutcomeView {
        match self {
            TaskOutcome::Success(version) => TaskOutcomeView::Success(version@),
            TaskOutcome::Failure(reason) => TaskOutcomeView::Failure(reason@),
        }
    }
}

/// The outcome that `phase` stands for; none before a terminal phase.
pub open spec fn outcome_of(phase: PhaseView) -> Option<TaskOutcomeView> {
    match phase {
        PhaseView::Finished { version } => Some(TaskOutcomeView::Success(version.label)),
        PhaseView::Failed { version, reason } => Some(TaskOutcomeView::Failure(reason)),
        _ => None,
    }
}

/// What happened to a task since its last step.
#[derive(Debug, PartialEq, Eq)]
pub enum TaskEvent {
    /// The task's unit of work was started.
    Launch,
    /// The metadata lookup returned.
    Metadata(MetadataLookup),
    /// The installer ended.
    InstallerExited(InstallerExit),
    /// The installer could not be run; `reason` says why.
    InstallerNotStarted { reason: String },
}

/// Mathematical form of a [`TaskEvent`].
pub ghost enum TaskEventView {
    Launch,
    Metadata(MetadataLookupView),
    InstallerExited(InstallerExitView),
    InstallerNotStarted { reason: Seq<char> },
}

impl View for TaskEvent {
    type V = TaskEventView;

    open spec fn view(&self) -> TaskEventView {
        match self {
            TaskEvent::Launch => TaskEventView::Launch,
            TaskEvent::Metadata(lookup) => TaskEventView::Metadata(lookup@),
            TaskEvent::InstallerExited(exit) => TaskEventView::InstallerExited(exit@),
            TaskEvent::InstallerNotStarted { reason } => TaskEventView::InstallerNotStarted {
                reason: reason@,
            },
        }
    }
}

/// What the caller is to do after a step.
#[derive(Debug, PartialEq, Eq)]
pub enum TaskAction {
    /// Request `url` and report the result as [`TaskEvent::Metadata`].
    FetchMetadata { url: String },
    /// Run `program` with `arguments` in the current directory and report
    /// the result as [`TaskEvent::InstallerExited`], or as
    /// [`TaskEvent::InstallerNotStarted`] where it could not be run.
    RunInstaller { program: String, arguments: Vec<String> },
    /// The task has ended. Where `diagnostic` is present, write it to the
    /// diagnostic stream.
    Conclude { diagnostic: Option<String> },
}

/// Mathematical form of a [`TaskAction`].
pub ghost enum TaskActionView {
    FetchMetadata { url: Seq<char> },
    RunInstaller { program: Seq<char>, arguments: Seq<Seq<char>> },
    Conclude { diagnostic: Option<Seq<char>> },
}

impl View for TaskAction {
    type V = TaskActionView;

    open spec fn view(&self) -> TaskActionView {
        match self {
            TaskAction::FetchMetadata { url } => TaskActionView::FetchMetadata { url: url@ },
            TaskAction::RunInstaller { program, arguments } => TaskActionView::RunInstaller {
                program: program@,
                arguments: texts_of(arguments@),
            },
            TaskAction::Conclude { diagnostic } => TaskActionView::Conclude {
                diagnostic: option_view(*diagnostic),
            },
        }
    }
}

/// One install target with its progress handle.
#[derive(Debug)]
pub struct InstallTask {
    target: String,
    phase: Phase,
    handle: ProgressHandle,
}

/// Mathematical form of an [`InstallTask`].
pub ghost struct InstallTaskView {
    pub target: Seq<char>,
    pub phase: PhaseView,
    pub handle: ProgressHandleView,
}

impl View for InstallTask {
    type V = InstallTaskView;

    closed spec fn view(&self) -> InstallTaskView {
        InstallTaskView { target: self.target@, phase: self.phase@, handle: self.handle@ }
    }
}

/// The task of `target` as it is created.
pub open spec fn created_task(target: Seq<char>) -> InstallTaskView {
    InstallTaskView { target, phase: PhaseView::Created, handle: fresh_handle() }
}

/// The task launched: from `Created` it goes on to the metadata lookup.
/// In any other phase nothing changes and nothing is asked for.
pub open spec fn task_launch(task: InstallTaskView) -> (InstallTaskView, Option<TaskActionView>) {
    match task.phase {
        PhaseView::Created => (
            InstallTaskView {
                target: task.target,
                phase: PhaseView::Fetching,
                handle: after_message(task.handle, fetching_line_of(task.target)),
            },
            Some(TaskActionView::FetchMetadata { url: metadata_url_of(task.target) }),
        ),
        _ => (task, None),
    }
}

/// The task told which version its lookup resolved to: from `Fetching` it
/// goes on to the installation of that version. In any other phase nothing
/// changes and nothing is asked for.
pub open spec fn task_install(task: InstallTaskView, version: VersionInfoView) -> (
    InstallTaskView,
    Option<TaskActionView>,
) {
    match task.phase {
        PhaseView::Fetching => (
            InstallTaskView {
                target: task.target,
                phase: PhaseView::Installing { version },
                handle: after_message(task.handle, installing_line_of(task.target, version.label)),
            },
            Some(
                TaskActionView::RunInstaller {
                    program: TOOL_PROGRAM@,
                    arguments: install_arguments_of(task.target, version.label),
                },
            ),
        ),
        _ => (task, None),
    }
}

/// The task told how its installer ended: from `Installing` it ends, in
/// `Finished` where the installer reported success, and else in `Failed`
/// with `stderr_text` as the reason and as the diagnostic to emit. In any
/// other phase nothing changes and nothing is asked for.
pub open spec fn task_conclude(task: InstallTaskView, success: bool, stderr_text: Seq<char>) -> (
    InstallTaskView,
    Option<TaskActionView>,
) {
    match task.phase {
        PhaseView::Installing { version } => if success {
            (
                InstallTaskView {
                    target: task.target,
                    phase: PhaseView::Finished { version },
                    handle: after_finish(task.handle, success_line_of(task.target, version.label)),
                },
                Some(TaskActionView::Conclude { diagnostic: None }),
            )
        } else {
            (
                InstallTaskView {
                    target: task.target,
                    phase: PhaseView::Failed { version, reason: stderr_text },
                    handle: after_finish(task.handle, failure_line_of(task.target)),
                },
                Some(TaskActionView::Conclude { diagnostic: Some(stderr_text) }),
            )
        },
        _ => (task, None),
    }
}

/// One step of a task: the task after `event`, and the action it asks for.
/// The lookup that came back is resolved to a version, and what the
/// installer wrote to standard error is read as text. An installer that
/// could not be run counts as one that failed, with the reason in place of
/// what it would have written. An event that the task's phase does not wait
/// for changes nothing and asks for nothing.
pub open spec fn task_step(task: InstallTaskView, event: TaskEventView) -> (
    InstallTaskView,
    Option<TaskActionView>,
) {
    match event {
        TaskEventView::Launch => task_launch(task),
        TaskEventView::Metadata(lookup) => task_install(task, resolved_version(lookup)),
        TaskEventView::InstallerExited(exit) => task_conclude(
            task,
            exit.success,
            lossy_text_of(exit.stderr),
        ),
        TaskEventView::InstallerNotStarted { reason } => task_conclude(task, false, reason),
    }
}

impl InstallTask {
    /// Creates the task of `target` together with its progress handle.
    pub fn new(target: String) -> (task: InstallTask)
        ensures
            task@ == created_task(target@),
            task_wf(task@),
    {
        InstallTask { target, phase: Phase::Created, handle: ProgressHandle::new() }
    }

    /// The target's identifier.
    pub fn target(&self) -> (target: &str)
        ensures
            target@ == self@.target,
    {
        self.target.as_str()
    }

    /// Where the task stands.
    pub fn phase(&self) -> (phase: &Phase)
        ensures
            phase@ == self@.phase,
    {
        &self.phase
    }

    /// The target's progress handle.
    pub fn handle(&self) -> (handle: &ProgressHandle)
        ensures
            handle@ == self@.handle,
    {
        &self.handle
    }

    /// Whether the task has ended.
    pub fn is_terminal(&self) -> (ended: bool)
        ensures
            ended == is_terminal(self@.phase),
    {
        match &self.phase {
            Phase::Finished { .. } => true,
            Phase::Failed { .. } => true,
            _ => false,
        }
    }

    /// The task's outcome; none before it has ended.
    pub fn outcome(&self) -> (outcome: Option<TaskOutcome>)
        ensures
            option_view(outcome) == outcome_of(self@.phase),
    {
        match &self.phase {
            Phase::Finished { version } => Some(TaskOutcome::Success(version.label.clone())),
            Phase::Failed { version, reason } => Some(TaskOutcome::Failure(reason.clone())),
            _ => None,
        }
    }

    /// Launches the task, as [`task_launch`] defines it: the handle shows
    /// the lookup, and the metadata is asked for.
    pub fn launch(&mut self) -> (action: Option<TaskAction>)
        ensures
            final(self)@ == task_launch(old(self)@).0,
            option_view(action) == task_launch(old(self)@).1,
            task_wf(old(self)@) ==> task_wf(final(self)@),
    {
        let mut phase = Phase::Created;
        core::mem::swap(&mut self.phase, &mut phase);
        match phase {
            Phase::Created => {
                self.handle.set_message(fetching_line(self.target.as_str()));
                self.phase = Phase::Fetching;
                Some(TaskAction::FetchMetadata { url: metadata_url(self.target.as_str()) })
            },
            other => {
                self.phase = other;
                None
            },
        }
    }

    /// Goes on to the installation of `version`, as [`task_install`]
    /// defines it: the handle shows the installation, and the installer is
    /// asked for.
    pub fn install(&mut self, version: VersionInfo) -> (action: Option<TaskAction>)
        ensures
            final(self)@ == task_install(old(self)@, version@).0,
            option_view(action) == task_install(old(self)@, version@).1,
            task_wf(old(self)@) ==> task_wf(final(self)@),
    {
        let mut phase = Phase::Created;
        core::mem::swap(&mut self.phase, &mut phase);
        match phase {
            Phase::Fetching => {
                self.handle.set_message(
                    installing_line(self.target.as_str(), version.label.as_str()),
                );
                let arguments = install_arguments(self.target.as_str(), version.label.as_str());
                self.phase = Phase::Installing { version };
                Some(TaskAction::RunInstaller { program: String::from_str(TOOL_PROGRAM), arguments })
            },
            other => {
                self.phase = other;
                None
            },
        }
    }

    /// Ends the task, as [`task_conclude`] defines it: the handle is
    /// finalized on the line of the result, and a failure hands out
    /// `stderr_text` for the diagnostic stream.
    pub fn conclude(&mut self, success: bool, stderr_text: String) -> (action: Option<TaskAction>)
        ensures
            final(self)@ == task_conclude(old(self)@, success, stderr_text@).0,
            option_view(action) == task_conclude(old(self)@, success, stderr_text@).1,
            task_wf(old(self)@) ==> task_wf(final(self)@),
    {
        let mut phase = Phase::Created;
        core::mem::swap(&mut self.phase, &mut phase);
        match phase {
            Phase::Installing { version } => {
                if success {
                    self.handle.finish_with_message(
                        success_line(self.target.as_str(), version.label.as_str()),
                    );
                    self.phase = Phase::Finished { version };
                    Some(TaskAction::Conclude { diagnostic: None })
                } else {
                    self.handle.finish_with_message(failure_line(self.target.as_str()));
                    let diagnostic = stderr_text.clone();
                    self.phase = Phase::Failed { version, reason: stderr_text };
                    Some(TaskAction::Conclude { diagnostic: Some(diagnostic) })
                }
            },
            other => {
                self.phase = other;
                None
            },
        }
    }

    /// Ends the task whose installer could not be run: the task fails as
    /// [`task_conclude`] defines it for an installer that did not succeed,
    /// with `reason` as the reason and as the diagnostic to emit.
    pub fn installer_not_started(&mut self, reason: String) -> (action: Option<TaskAction>)
        ensures
            final(self)@ == task_conclude(old(self)@, false, reason@).0,
            option_view(action) == task_conclude(old(self)@, false, reason@).1,
            task_wf(old(self)@) ==> task_wf(final(self)@),
    {
        self.conclude(false, reason)
    }

    /// Takes `event` and answers with the action to perform, as
    /// [`task_step`] defines it. Where the installer exited and what it
    /// wrote to standard error is valid UTF-8, the text that is read is the
    /// one those bytes encode. A task stays within the states that
    /// [`task_wf`] admits.
    pub fn step(&mut self, event: TaskEvent) -> (action: Option<TaskAction>)
        ensures
            final(self)@ == task_step(old(self)@, event@).0,
            option_view(action) == task_step(old(self)@, event@).1,
            (match event@ {
                TaskEventView::InstallerExited(exit) => valid_utf8(exit.stderr) ==> (final(self)@,
                option_view(action)) == task_conclude(
                    old(self)@,
                    exit.success,
                    decode_utf8(exit.stderr),
                ),
                _ => true,
            }),
            task_wf(old(self)@) ==> task_wf(final(self)@),
    {
        match event {
            TaskEvent::Launch => self.launch(),
            TaskEvent::Metadata(lookup) => {
                let version = resolve_version(&lookup);
                self.install(version)
            },
            TaskEvent::InstallerExited(exit) => {
                let stderr_text = diagnostic_text(&exit);
                self.conclude(exit.success, stderr_text)
            },
            TaskEvent::InstallerNotStarted { reason } => self.installer_not_started(reason),
        }
    }
}

/// Whether `event` reports the end of the installer's run: it exited, or
/// it could not be run.
pub open spec fn is_installer_result(event: TaskEventView) -> bool {
    event is InstallerExited || event is InstallerNotStarted
}

/// The events of a task's whole life, in order: launched, the lookup
/// returned `lookup`, and `ending` came back for the installer.
pub open spec fn full_script(lookup: MetadataLookupView, ending: TaskEventView) -> Seq<TaskEventView> {
    seq![TaskEventView::Launch, TaskEventView::Metadata(lookup), ending]
}

/// The phase of a task after the events of its life: `Finished` where the
/// installer exited in success; `Failed` where it exited otherwise, with
/// what it wrote to standard error as the reason, and where it could not be
/// run, with the reason given. While `ending` is no report of the installer
/// the task goes on installing.
pub open spec fn settled_phase(lookup: MetadataLookupView, ending: TaskEventView) -> PhaseView {
    let version = resolved_version(lookup);
    match ending {
        TaskEventView::InstallerExited(exit) => if exit.success {
            PhaseView::Finished { version }
        } else {
            PhaseView::Failed { version, reason: lossy_text_of(exit.stderr) }
        },
        TaskEventView::InstallerNotStarted { reason } => PhaseView::Failed { version, reason },
        _ => PhaseView::Installing { version },
    }
}

/// The task after it has taken `events` one after the other.
pub open spec fn run_task(task: InstallTaskView, events: Seq<TaskEventView>) -> InstallTaskView
    decreases events.len(),
{
    if events.len() == 0 {
        task
    } else {
        task_step(run_task(task, events.drop_last()), events.last()).0
    }
}

/// The states that a task can be in: the handle shows the line of the
/// task's phase, was written once per phase passed, and is finalized
/// exactly in a terminal phase.
pub open spec fn task_wf(task: InstallTaskView) -> bool {
    match task.phase {
        PhaseView::Created => task.handle == fresh_handle(),
        PhaseView::Fetching => task.handle == ProgressHandleView {
            line: fetching_line_of(task.target),
            updates: 1,
            finalized: false,
        },
        PhaseView::Installing { version } => task.handle == ProgressHandleView {
            line: installing_line_of(task.target, version.label),
            updates: 2,
            finalized: false,
        },
        PhaseView::Finished { version } => task.handle == ProgressHandleView {
            line: success_line_of(task.target, version.label),
            updates: 3,
            finalized: true,
        },
        PhaseView::Failed { version, reason } => task.handle == ProgressHandleView {
            line: failure_line_of(task.target),
            updates: 3,
            finalized: true,
        },
    }
}

/// A task is created in one of the states that [`task_wf`] admits.
pub proof fn lemma_created_task_is_wf(target: Seq<char>)
    ensures
        task_wf(created_task(target)),
{
}

/// No step leads a task out of the states that [`task_wf`] admits, and no
/// step changes the task's target.
pub proof fn lemma_step_keeps_wf(task: InstallTaskView, event: TaskEventView)
    requires
        task_wf(task),
    ensures
        task_wf(task_step(task, event).0),
        task_step(task, event).0.target == task.target,
{
}

/// The handle of a task is finalized exactly when the task has ended, and
/// it has then been written exactly three times: for the lookup, for the
/// installation, and for the result. Before that it has been written less
/// often.
pub proof fn lemma_handle_follows_phase(task: InstallTaskView)
    requires
        task_wf(task),
    ensures
        task.handle.finalized <==> is_terminal(task.phase),
        is_terminal(task.phase) ==> task.handle.updates == 3,
        !is_terminal(task.phase) ==> task.handle.updates < 3,
{
}

/// How far a task has come: the number of steps that have moved it on.
pub open spec fn phase_rank(phase: PhaseView) -> nat {
    match phase {
        PhaseView::Created => 0,
        PhaseView::Fetching => 1,
        PhaseView::Installing { .. } => 2,
        PhaseView::Finished { .. } => 3,
        PhaseView::Failed { .. } => 3,
    }
}

/// A step that asks for nothing changes nothing, and a step that asks for
/// something moves the task on by exactly one phase: to the lookup with the
/// request for the metadata, to the installation with the request for the
/// installer, to the end with the conclusion. A task never goes back, so
/// each is asked for once at most: one lookup and one installation per
/// target, and no second attempt.
pub proof fn lemma_each_action_is_asked_once(task: InstallTaskView, event: TaskEventView)
    ensures
        ({
            let (next, action) = task_step(task, event);
            &&& action is None ==> next == task
            &&& action is Some ==> phase_rank(next.phase) == phase_rank(task.phase) + 1
            &&& (action matches Some(TaskActionView::FetchMetadata { .. })) <==> (action is Some
                && phase_rank(next.phase) == 1)
            &&& (action matches Some(TaskActionView::RunInstaller { .. })) <==> (action is Some
                && phase_rank(next.phase) == 2)
            &&& (action matches Some(TaskActionView::Conclude { .. })) <==> (action is Some
                && phase_rank(next.phase) == 3)
        }),
{
}

/// A task that has ended takes no further event: its phase, its handle and
/// its outcome stay as they are, and it asks for nothing.
pub proof fn lemma_ended_task_is_final(task: InstallTaskView, event: TaskEventView)
    requires
        is_terminal(task.phase),
    ensures
        task_step(task, event) == (task, None::<TaskActionView>),
{
}

/// A finalized handle is never written again, whatever a step attempts.
pub proof fn lemma_finalized_handle_is_never_written(
    task: InstallTaskView,
    event: TaskEventView,
)
    requires
        task.handle.finalized,
    ensures
        task_step(task, event).0.handle == task.handle,
{
}

/// Whatever the lookup returns and however the installer's run ends, with
/// an exit in success, an exit in failure, or no run at all, a task that
/// takes the events of its life in order ends: in `Finished` exactly when
/// the installer exited in success, in `Failed` otherwise, with the version
/// that the lookup resolved to.
pub proof fn lemma_full_script_ends_task(
    target: Seq<char>,
    lookup: MetadataLookupView,
    ending: TaskEventView,
)
    ensures
        ({
            let ended = run_task(created_task(target), full_script(lookup, ending));
            &&& task_wf(ended)
            &&& ended.target == target
            &&& ended.phase == settled_phase(lookup, ending)
            &&& is_installer_result(ending) ==> is_terminal(ended.phase)
            &&& is_terminal(ended.phase) ==> ended.handle.finalized && ended.handle.updates == 3
        }),
{
    let script = full_script(lookup, ending);
    let first = script.drop_last().drop_last();
    assert(first.drop_last() =~= Seq::<TaskEventView>::empty());
    assert(first.last() == TaskEventView::Launch);
    assert(script.drop_last().last() == TaskEventView::Metadata(lookup));
    assert(script.last() == ending);
    reveal_with_fuel(run_task, 4);
}

/// A task whose metadata lookup failed is not aborted: it goes on to the
/// installation, with the default label `latest` as its version, and asks
/// for the installer to be run on `<target>@latest`.
pub proof fn lemma_failed_lookup_installs_latest(task: InstallTaskView)
    requires
        task.phase is Fetching,
    ensures
        ({
            let (next, action) = task_step(
                task,
                TaskEventView::Metadata(MetadataLookupView::Unavailable),
            );
            &&& next.phase == PhaseView::Installing {
                version: VersionInfoView {
                    label: DEFAULT_VERSION@,
                    source: VersionSource::LookupFailed,
                },
            }
            &&& action == Some(
                TaskActionView::RunInstaller {
                    program: TOOL_PROGRAM@,
                    arguments: seq![INSTALL_COMMAND@, task.target + "@"@ + DEFAULT_VERSION@],
                },
            )
        }),
{
}

/// A task whose installer could not be run ends in `Failed` as well: its
/// handle is finalized on the failure line, and the reason is kept and
/// handed out for the diagnostic stream.
pub proof fn lemma_unstarted_install_is_flagged(task: InstallTaskView, reason: Seq<char>)
    requires
        task_wf(task),
        task.phase is Installing,
    ensures
        ({
            let (next, action) = task_step(task, TaskEventView::InstallerNotStarted { reason });
            &&& next.phase == PhaseView::Failed {
                version: task.phase->Installing_version,
                reason,
            }
            &&& next.handle.finalized
            &&& next.handle.line == failure_line_of(task.target)
            &&& outcome_of(next.phase) == Some(TaskOutcomeView::Failure(reason))
            &&& action == Some(TaskActionView::Conclude { diagnostic: Some(reason) })
        }),
{
}

/// A task whose installer does not report success ends in `Failed`: its
/// handle is finalized on the failure line, what the installer wrote to
/// standard error becomes the reason, and the same text is handed out for
/// the diagnostic stream.
pub proof fn lemma_failed_install_is_flagged(task: InstallTaskView, stderr: Seq<u8>)
    requires
        task_wf(task),
        task.phase is Installing,
    ensures
        ({
            let (next, action) = task_step(
                task,
                TaskEventView::InstallerExited(InstallerExitView { success: false, stderr }),
            );
            &&& next.phase == PhaseView::Failed {
                version: task.phase->Installing_version,
                reason: lossy_text_of(stderr),
            }
            &&& next.handle.finalized
            &&& next.handle.line == failure_line_of(task.target)
            &&& outcome_of(next.phase) == Some(TaskOutcomeView::Failure(lossy_text_of(stderr)))
            &&& action == Some(
                TaskActionView::Conclude { diagnostic: Some(lossy_text_of(stderr)) },
            )
        }),
{
}

} // verus!
