//! The install run: one task per target, stepped independently of each
//! other in whatever order their events arrive.

use vstd::prelude::*;
use crate::installer::lossy_text_of;
use crate::registry::{resolved_version, MetadataLookupView};
use crate::status::plain_text_of;
use crate::task::{
    created_task, full_script, is_installer_result, is_terminal, lemma_full_script_ends_task,
    lemma_step_keeps_wf, outcome_of, run_task, settled_phase, task_step, task_wf, InstallTask,
    InstallTaskView, Phase, PhaseView, TaskAction, TaskActionView, TaskEvent, TaskEventView,
    TaskOutcome, TaskOutcomeView,
};
use crate::views::{option_view, texts_of};

verus! {

/// How a run reports to its caller. There is no failed variant: a target
/// that fails shows in its own outcome and on its own status line, never in
/// the result of the run.
#[derive(Clone, Copy, Debug, PartialEq, Eq, Structural)]
pub enum RunStatus {
    /// At least one task has not ended yet.
    Running,
    /// Every task has ended, each in success or in failure.
    Succeeded,
}

/// How many tasks may be under way at a time.
#[derive(Clone, Copy, Debug, PartialEq, Eq, Structural)]
pub enum Concurrency {
    /// Every task is launched at once.
    Unbounded,
    /// At most this many tasks are under way at a time. A limit of zero
    /// lets no task be launched.
    AtMost(usize),
}

/// The tasks of one install run, in the order in which the targets were
/// given, which is the order of their lines in the display.
#[derive(Debug)]
pub struct Orchestrator {
    tasks: Vec<InstallTask>,
}

impl View for Orchestrator {
    type V = Seq<InstallTaskView>;

    closed spec fn view(&self) -> Seq<InstallTaskView> {
        Seq::new(self.tasks@.len(), |i: int| self.tasks@[i]@)
    }
}

/// A run as it is created: one fresh task per target, in order.
pub open spec fn created_tasks(targets: Seq<Seq<char>>) -> Seq<InstallTaskView> {
    Seq::new(targets.len(), |i: int| created_task(targets[i]))
}

/// One step of a run: the task at `index` takes `event`, every other task
/// stays as it is. An index outside the run changes nothing and asks for
/// nothing.
pub open spec fn run_step(tasks: Seq<InstallTaskView>, index: int, event: TaskEventView) -> (
    Seq<InstallTaskView>,
    Option<TaskActionView>,
) {
    if 0 <= index < tasks.len() {
        (tasks.update(index, task_step(tasks[index], event).0), task_step(tasks[index], event).1)
    } else {
        (tasks, None)
    }
}

/// Whether every task has ended.
pub open spec fn all_terminal(tasks: Seq<InstallTaskView>) -> bool {
    forall|i: int| 0 <= i < tasks.len() ==> is_terminal(#[trigger] tasks[i].phase)
}

/// What a run with these tasks reports to its caller.
pub open spec fn run_status_of(tasks: Seq<InstallTaskView>) -> RunStatus {
    if all_terminal(tasks) {
        RunStatus::Succeeded
    } else {
        RunStatus::Running
    }
}

/// The outcomes of the tasks, in order; none where a task has not ended.
pub open spec fn outcomes_of(tasks: Seq<InstallTaskView>) -> Seq<Option<TaskOutcomeView>> {
    Seq::new(tasks.len(), |i: int| outcome_of(tasks[i].phase))
}

/// What the display shows, styling aside: the plain text of every task's
/// status line, in the order of the targets.
pub open spec fn display_of(tasks: Seq<InstallTaskView>) -> Seq<Seq<char>> {
    Seq::new(tasks.len(), |i: int| plain_text_of(tasks[i].handle.line))
}

/// The mathematical forms of a list of optional outcomes.
pub open spec fn outcome_views(outcomes: Seq<Option<TaskOutcome>>) -> Seq<Option<TaskOutcomeView>> {
    Seq::new(outcomes.len(), |i: int| option_view(outcomes[i]))
}

/// Whether a task in `phase` is under way: launched and not yet ended.
pub open spec fn in_flight(phase: PhaseView) -> bool {
    phase is Fetching || phase is Installing
}

/// Number of tasks that are under way.
pub open spec fn in_flight_count(tasks: Seq<InstallTaskView>) -> nat
    decreases tasks.len(),
{
    if tasks.len() == 0 {
        0
    } else {
        in_flight_count(tasks.drop_last()) + if in_flight(tasks.last().phase) {
            1nat
        } else {
            0nat
        }
    }
}

/// Whether `policy` lets one more task be launched.
pub open spec fn admits(policy: Concurrency, tasks: Seq<InstallTaskView>) -> bool {
    match policy {
        Concurrency::Unbounded => true,
        Concurrency::AtMost(limit) => in_flight_count(tasks) < limit,
    }
}

/// Whether some task has not been launched yet.
pub open spec fn has_created(tasks: Seq<InstallTaskView>) -> bool {
    exists|i: int| 0 <= i < tasks.len() && (#[trigger] tasks[i]).phase is Created
}

/// Whether `index` is the first task that has not been launched yet.
pub open spec fn is_first_created(tasks: Seq<InstallTaskView>, index: int) -> bool {
    &&& 0 <= index < tasks.len()
    &&& tasks[index].phase is Created
    &&& forall|j: int| 0 <= j < index ==> !((#[trigger] tasks[j]).phase is Created)
}

impl Orchestrator {
    /// Creates the run for `targets`: one task and one progress handle per
    /// target, in the order given.
    pub fn new(targets: &[String]) -> (run: Orchestrator)
        ensures
            run@ == created_tasks(texts_of(targets@)),
            run@.len() == targets@.len(),
            run_wf(run@),
            in_flight_count(run@) == 0,
    {
        let mut tasks: Vec<InstallTask> = Vec::new();
        let count: usize = targets.len();
        let mut made: usize = 0;
        while made < count
            invariant
                count == targets@.len(),
                made <= count,
                tasks@.len() == made,
                forall|i: int| 0 <= i < made ==> (#[trigger] tasks@[i])@ == created_task(targets@[i]@),
            decreases count - made,
        {
            tasks.push(InstallTask::new(targets[made].clone()));
            made = made + 1;
        }
        let run = Orchestrator { tasks };
        proof {
            assert(run@ =~= created_tasks(texts_of(targets@)));
            lemma_created_run_is_wf(texts_of(targets@));
        }
        run
    }

    /// Number of tasks, which is the number of progress handles.
    pub fn len(&self) -> (count: usize)
        ensures
            count == self@.len(),
    {
        self.tasks.len()
    }

    /// The task at `index`, if the run has one there.
    pub fn task(&self, index: usize) -> (task: Option<&InstallTask>)
        ensures
            index < self@.len() ==> task is Some && task->0@ == self@[index as int],
            index >= self@.len() ==> task is None,
    {
        if index < self.tasks.len() {
            Some(&self.tasks[index])
        } else {
            None
        }
    }

    /// Hands `event` to the task at `index` and answers with the action to
    /// perform, as [`run_step`] defines it. No task is added or removed, no
    /// task but the one at `index` changes, and every task stays within the
    /// states that [`task_wf`] admits.
    pub fn dispatch(&mut self, index: usize, event: TaskEvent) -> (action: Option<TaskAction>)
        ensures
            final(self)@ == run_step(old(self)@, index as int, event@).0,
            option_view(action) == run_step(old(self)@, index as int, event@).1,
            final(self)@.len() == old(self)@.len(),
            forall|other: int|
                0 <= other < old(self)@.len() && other != index ==> final(self)@[other] == old(
                    self,
                )@[other],
            run_wf(old(self)@) ==> run_wf(final(self)@),
    {
        proof {
            lemma_run_keeps_wf(self@, index as int, event@);
        }
        if index < self.tasks.len() {
            let action = self.tasks[index].step(event);
            assert(self@ =~= run_step(old(self)@, index as int, event@).0);
            action
        } else {
            None
        }
    }

    /// Number of tasks that are under way.
    pub fn in_flight(&self) -> (count: usize)
        ensures
            count == in_flight_count(self@),
    {
        let total: usize = self.tasks.len();
        let mut count: usize = 0;
        let mut seen: usize = 0;
        while seen < total
            invariant
                total == self.tasks@.len(),
                seen <= total,
                count <= seen,
                count == in_flight_count(self@.take(seen as int)),
            decreases total - seen,
        {
            proof {
                let after = self@.take(seen + 1);
                assert(after.drop_last() =~= self@.take(seen as int));
                assert(after.last() == self@[seen as int]);
            }
            let under_way = match self.tasks[seen].phase() {
                Phase::Fetching => true,
                Phase::Installing { .. } => true,
                _ => false,
            };
            if under_way {
                count = count + 1;
            }
            seen = seen + 1;
        }
        assert(self@.take(total as int) =~= self@);
        count
    }

    /// The task to launch next under `policy`: the first one that has not
    /// been launched yet, provided the policy lets one more be under way.
    pub fn next_to_launch(&self, policy: Concurrency) -> (next: Option<usize>)
        ensures
            next is Some <==> admits(policy, self@) && has_created(self@),
            next matches Some(index) ==> is_first_created(self@, index as int),
    {
        let admitted = match policy {
            Concurrency::Unbounded => true,
            Concurrency::AtMost(limit) => self.in_flight() < limit,
        };
        if !admitted {
            return None;
        }
        let total: usize = self.tasks.len();
        let mut seen: usize = 0;
        while seen < total
            invariant
                total == self.tasks@.len(),
                seen <= total,
                admits(policy, self@),
                forall|j: int| 0 <= j < seen ==> !((#[trigger] self@[j]).phase is Created),
            decreases total - seen,
        {
            let created = match self.tasks[seen].phase() {
                Phase::Created => true,
                _ => false,
            };
            if created {
                assert(self@[seen as int].phase is Created);
                return Some(seen);
            }
            seen = seen + 1;
        }
        None
    }

    /// Whether every task has ended.
    pub fn is_complete(&self) -> (complete: bool)
        ensures
            complete == all_terminal(self@),
    {
        let count: usize = self.tasks.len();
        let mut seen: usize = 0;
        while seen < count
            invariant
                count == self.tasks@.len(),
                seen <= count,
                forall|i: int| 0 <= i < seen ==> is_terminal(#[trigger] self@[i].phase),
            decreases count - seen,
        {
            if !self.tasks[seen].is_terminal() {
                assert(!is_terminal(self@[seen as int].phase));
                return false;
            }
            seen = seen + 1;
        }
        true
    }

    /// What the run reports to its caller: success as soon as every task
    /// has ended, whatever the tasks' own outcomes are.
    pub fn status(&self) -> (status: RunStatus)
        ensures
            status == run_status_of(self@),
    {
        if self.is_complete() {
            RunStatus::Succeeded
        } else {
            RunStatus::Running
        }
    }

    /// What the display shows, styling aside: one line per target, in the
    /// order of the targets.
    pub fn display_lines(&self) -> (lines: Vec<String>)
        ensures
            texts_of(lines@) == display_of(self@),
    {
        let mut lines: Vec<String> = Vec::new();
        let count: usize = self.tasks.len();
        let mut seen: usize = 0;
        while seen < count
            invariant
                count == self.tasks@.len(),
                seen <= count,
                lines@.len() == seen,
                forall|i: int|
                    0 <= i < seen ==> (#[trigger] lines@[i])@ == plain_text_of(
                        self@[i].handle.line,
                    ),
            decreases count - seen,
        {
            lines.push(self.tasks[seen].handle().line().plain_text());
            seen = seen + 1;
        }
        assert(texts_of(lines@) =~= display_of(self@));
        lines
    }

    /// The outcomes of all tasks, in the order of the targets.
    pub fn outcomes(&self) -> (outcomes: Vec<Option<TaskOutcome>>)
        ensures
            outcome_views(outcomes@) == outcomes_of(self@),
    {
        let mut outcomes: Vec<Option<TaskOutcome>> = Vec::new();
        let count: usize = self.tasks.len();
        let mut seen: usize = 0;
        while seen < count
            invariant
                count == self.tasks@.len(),
                seen <= count,
                outcomes@.len() == seen,
                forall|i: int| 0 <= i < seen ==> option_view(#[trigger] outcomes@[i]) == outcome_of(self@[i].phase),
            decreases count - seen,
        {
            outcomes.push(self.tasks[seen].outcome());
            seen = seen + 1;
        }
        assert(outcome_views(outcomes@) =~= outcomes_of(self@));
        outcomes
    }
}

/// The run after it has taken the deliveries of `schedule` one after the
/// other. A delivery is the index of a task and the event handed to it; a
/// schedule is any interleaving of the tasks' events.
pub open spec fn run_schedule(
    tasks: Seq<InstallTaskView>,
    schedule: Seq<(int, TaskEventView)>,
) -> Seq<InstallTaskView>
    decreases schedule.len(),
{
    if schedule.len() == 0 {
        tasks
    } else {
        run_step(
            run_schedule(tasks, schedule.drop_last()),
            schedule.last().0,
            schedule.last().1,
        ).0
    }
}

/// The events that `schedule` delivers to the task at `index`, in order.
pub open spec fn events_for(schedule: Seq<(int, TaskEventView)>, index: int) -> Seq<TaskEventView>
    decreases schedule.len(),
{
    if schedule.len() == 0 {
        Seq::empty()
    } else {
        let earlier = events_for(schedule.drop_last(), index);
        if schedule.last().0 == index {
            earlier.push(schedule.last().1)
        } else {
            earlier
        }
    }
}

/// Whether every task is in a state that [`task_wf`] admits.
pub open spec fn run_wf(tasks: Seq<InstallTaskView>) -> bool {
    forall|i: int| 0 <= i < tasks.len() ==> task_wf(#[trigger] tasks[i])
}

/// The outcome that a task ends with when its lookup returned `lookup` and
/// `ending` came back for its installer: success with the resolved version
/// where the installer exited in success; failure where it exited
/// otherwise, with what it wrote to standard error, and where it could not
/// be run, with the reason given. None while `ending` is no report of the
/// installer.
pub open spec fn settled_outcome(lookup: MetadataLookupView, ending: TaskEventView) -> Option<
    TaskOutcomeView,
> {
    match ending {
        TaskEventView::InstallerExited(exit) => Some(
            if exit.success {
                TaskOutcomeView::Success(resolved_version(lookup).label)
            } else {
                TaskOutcomeView::Failure(lossy_text_of(exit.stderr))
            },
        ),
        TaskEventView::InstallerNotStarted { reason } => Some(TaskOutcomeView::Failure(reason)),
        _ => None,
    }
}

/// A step neither adds nor removes a task, and it leads no task out of the
/// states that [`task_wf`] admits.
pub proof fn lemma_run_keeps_wf(tasks: Seq<InstallTaskView>, index: int, event: TaskEventView)
    ensures
        run_step(tasks, index, event).0.len() == tasks.len(),
        run_wf(tasks) ==> run_wf(run_step(tasks, index, event).0),
{
    if run_wf(tasks) && 0 <= index < tasks.len() {
        lemma_step_keeps_wf(tasks[index], event);
    }
}

/// A run as created holds one task per target, each is in a state that
/// [`task_wf`] admits, and none is under way.
pub proof fn lemma_created_run_is_wf(targets: Seq<Seq<char>>)
    ensures
        created_tasks(targets).len() == targets.len(),
        run_wf(created_tasks(targets)),
        in_flight_count(created_tasks(targets)) == 0,
    decreases targets.len(),
{
    if targets.len() > 0 {
        lemma_created_run_is_wf(targets.drop_last());
        assert(created_tasks(targets).drop_last() =~= created_tasks(targets.drop_last()));
    }
}

/// A step changes the task it is addressed to and no other: whatever
/// happens to one target, its siblings stay as they are.
pub proof fn lemma_step_leaves_siblings(
    tasks: Seq<InstallTaskView>,
    index: int,
    event: TaskEventView,
    sibling: int,
)
    requires
        0 <= sibling < tasks.len(),
        sibling != index,
    ensures
        run_step(tasks, index, event).0[sibling] == tasks[sibling],
{
}

/// Under any interleaving, the state of a task is the one it reaches on its
/// own events alone: what is delivered to other tasks, and how they end,
/// has no part in it.
pub proof fn lemma_tasks_are_independent(
    tasks: Seq<InstallTaskView>,
    schedule: Seq<(int, TaskEventView)>,
    index: int,
)
    requires
        0 <= index < tasks.len(),
    ensures
        run_schedule(tasks, schedule).len() == tasks.len(),
        run_schedule(tasks, schedule)[index] == run_task(tasks[index], events_for(schedule, index)),
    decreases schedule.len(),
{
    if schedule.len() > 0 {
        let earlier = schedule.drop_last();
        lemma_tasks_are_independent(tasks, earlier, index);
        if schedule.last().0 == index {
            let events = events_for(earlier, index).push(schedule.last().1);
            assert(events.drop_last() =~= events_for(earlier, index));
            assert(events.last() == schedule.last().1);
        }
    }
}

/// For any number of targets and any interleaving that delivers to each
/// task the events of its life in order, the run ends with exactly one task
/// per target, every one of them ended, whatever the lookups returned and
/// however the installers' runs ended, in an exit or in no run at all; each
/// task carries the outcome of its own lookup and installer, and the run
/// reports success.
pub proof fn lemma_run_completes(
    targets: Seq<Seq<char>>,
    lookups: Seq<MetadataLookupView>,
    endings: Seq<TaskEventView>,
    schedule: Seq<(int, TaskEventView)>,
)
    requires
        lookups.len() == targets.len(),
        endings.len() == targets.len(),
        forall|i: int| 0 <= i < targets.len() ==> is_installer_result(#[trigger] endings[i]),
        forall|i: int|
            0 <= i < targets.len() ==> #[trigger] events_for(schedule, i) == full_script(
                lookups[i],
                endings[i],
            ),
    ensures
        ({
            let ended = run_schedule(created_tasks(targets), schedule);
            &&& ended.len() == targets.len()
            &&& run_wf(ended)
            &&& all_terminal(ended)
            &&& run_status_of(ended) == RunStatus::Succeeded
            &&& forall|i: int|
                0 <= i < targets.len() ==> (#[trigger] ended[i]).phase == settled_phase(
                    lookups[i],
                    endings[i],
                ) && outcome_of(ended[i].phase) == settled_outcome(lookups[i], endings[i])
                    && ended[i].handle.finalized
        }),
{
    let created = created_tasks(targets);
    let ended = run_schedule(created, schedule);
    lemma_length_is_kept(created, schedule);
    assert forall|i: int| 0 <= i < targets.len() implies task_wf(#[trigger] ended[i])
        && is_terminal(ended[i].phase) && ended[i].phase == settled_phase(lookups[i], endings[i])
        && outcome_of(ended[i].phase) == settled_outcome(lookups[i], endings[i])
        && ended[i].handle.finalized by {
        lemma_tasks_are_independent(created, schedule, i);
        assert(events_for(schedule, i) == full_script(lookups[i], endings[i]));
        assert(is_installer_result(endings[i]));
        lemma_full_script_ends_task(targets[i], lookups[i], endings[i]);
    }
}

/// No schedule adds or removes a task.
pub proof fn lemma_length_is_kept(tasks: Seq<InstallTaskView>, schedule: Seq<(int, TaskEventView)>)
    ensures
        run_schedule(tasks, schedule).len() == tasks.len(),
    decreases schedule.len(),
{
    if schedule.len() > 0 {
        lemma_length_is_kept(tasks, schedule.drop_last());
    }
}

/// A run reports success exactly when all its tasks have ended. The tasks'
/// own outcomes play no part: a run in which every task has failed reports
/// success as well.
pub proof fn lemma_failures_do_not_fail_the_run(tasks: Seq<InstallTaskView>)
    ensures
        run_status_of(tasks) == RunStatus::Succeeded <==> all_terminal(tasks),
        (forall|i: int| 0 <= i < tasks.len() ==> (#[trigger] tasks[i]).phase is Failed)
            ==> run_status_of(tasks) == RunStatus::Succeeded,
{
}

/// Replacing one task changes the number of tasks under way by that task's
/// own share.
pub proof fn lemma_in_flight_after_update(
    tasks: Seq<InstallTaskView>,
    index: int,
    task: InstallTaskView,
)
    requires
        0 <= index < tasks.len(),
    ensures
        in_flight_count(tasks.update(index, task)) + (if in_flight(tasks[index].phase) {
            1nat
        } else {
            0nat
        }) == in_flight_count(tasks) + (if in_flight(task.phase) {
            1nat
        } else {
            0nat
        }),
    decreases tasks.len(),
{
    let updated = tasks.update(index, task);
    if index == tasks.len() - 1 {
        assert(updated.drop_last() =~= tasks.drop_last());
    } else {
        assert(updated.drop_last() =~= tasks.drop_last().update(index, task));
        lemma_in_flight_after_update(tasks.drop_last(), index, task);
    }
}

/// Only a launch puts a task under way: it takes one slot, and only where
/// the task had not been launched before. Every other step leaves the
/// number of tasks under way as it is or, where a task ends, frees a slot.
/// So a caller that launches a task only where the policy admits one keeps
/// the number of tasks under way within the policy's limit.
pub proof fn lemma_step_and_slots(tasks: Seq<InstallTaskView>, index: int, event: TaskEventView)
    ensures
        ({
            let before = in_flight_count(tasks);
            let after = in_flight_count(run_step(tasks, index, event).0);
            let launches = 0 <= index < tasks.len() && tasks[index].phase is Created && event
                is Launch;
            &&& launches ==> after == before + 1
            &&& !launches ==> after <= before
            &&& forall|limit: usize|
                launches && admits(Concurrency::AtMost(limit), tasks) ==> after <= limit
        }),
{
    if 0 <= index < tasks.len() {
        lemma_in_flight_after_update(tasks, index, task_step(tasks[index], event).0);
    }
}

/// A run is never stuck: while some task has not ended and none is under
/// way, there is a task left to launch, and every policy that allows at
/// least one task at a time admits it.
pub proof fn lemma_never_stuck(tasks: Seq<InstallTaskView>, policy: Concurrency)
    requires
        !all_terminal(tasks),
        in_flight_count(tasks) == 0,
        policy matches Concurrency::AtMost(limit) ==> limit >= 1,
    ensures
        admits(policy, tasks),
        has_created(tasks),
{
    let open = choose|i: int| 0 <= i < tasks.len() && !is_terminal(#[trigger] tasks[i].phase);
    lemma_none_in_flight(tasks, open);
}

/// Where no task is under way, none is in a phase that is under way.
pub proof fn lemma_none_in_flight(tasks: Seq<InstallTaskView>, index: int)
    requires
        in_flight_count(tasks) == 0,
        0 <= index < tasks.len(),
    ensures
        !in_flight(tasks[index].phase),
    decreases tasks.len(),
{
    if index < tasks.len() - 1 {
        lemma_none_in_flight(tasks.drop_last(), index);
    }
}

} // verus!
