use crate::error::DownloadError;
use crate::text::text_of;
use vstd::prelude::*;

verus! {

/// Where one task of a batch stands.
#[derive(Debug, Clone, Copy, PartialEq, Eq)]
pub enum TaskStatus {
    /// Not started yet.
    Waiting,
    /// Started and not yet reported back.
    Running,
    /// Reported back without an error.
    Succeeded,
    /// Reported back with an error.
    Failed,
}

/// How many entries of `status` are `which`.
pub open spec fn count(status: Seq<TaskStatus>, which: TaskStatus) -> nat
    decreases status.len(),
{
    if status.len() == 0 {
        0
    } else {
        count(status.drop_last(), which) + if status.last() == which {
            1nat
        } else {
            0nat
        }
    }
}

/// What can happen to a batch: a free slot is offered to the next waiting
/// task, or a task reports back.
pub enum BatchEvent {
    Start,
    Complete { index: int, succeeded: bool },
}

/// The mathematical value of a [`Batch`]: the cap on concurrent tasks and
/// the status of every task, in task-list order.
pub struct BatchView {
    pub cap: nat,
    pub status: Seq<TaskStatus>,
}

impl BatchView {
    /// A batch of `total` waiting tasks. A cap of zero counts as one.
    pub open spec fn initial(total: nat, cap: nat) -> BatchView {
        BatchView {
            cap: if cap == 0 {
                1
            } else {
                cap
            },
            status: Seq::new(total, |i: int| TaskStatus::Waiting),
        }
    }

    /// The number of tasks in the batch.
    pub open spec fn total(self) -> nat {
        self.status.len()
    }

    /// The number of tasks running at this instant.
    pub open spec fn running(self) -> nat {
        count(self.status, TaskStatus::Running)
    }

    /// The number of tasks that have reported back, with or without error.
    pub open spec fn completed(self) -> nat {
        count(self.status, TaskStatus::Succeeded) + count(self.status, TaskStatus::Failed)
    }

    /// The number of tasks that have been started.
    pub open spec fn started(self) -> nat {
        (self.status.len() - count(self.status, TaskStatus::Waiting)) as nat
    }

    /// What holds of every batch: the cap is positive, no more tasks run
    /// than the cap allows, and the tasks started are exactly the first
    /// `started()` of the list.
    pub open spec fn wf(self) -> bool {
        &&& self.cap >= 1
        &&& self.running() <= self.cap
        &&& self.started() <= self.total()
        &&& forall|i: int|
            0 <= i < self.status.len() ==> (self.status[i] == TaskStatus::Waiting <==> i
                >= self.started())
    }

    /// Whether a task is waiting and a slot is free for it.
    pub open spec fn can_start(self) -> bool {
        self.running() < self.cap && self.started() < self.total()
    }

    /// The batch after the next waiting task, the first in list order, has
    /// been started; unchanged if none can start.
    pub open spec fn start(self) -> BatchView {
        if self.can_start() {
            BatchView {
                status: self.status.update(self.started() as int, TaskStatus::Running),
                ..self
            }
        } else {
            self
        }
    }

    /// Whether task `index` is running, so that its report counts.
    pub open spec fn can_complete(self, index: int) -> bool {
        0 <= index < self.status.len() && self.status[index] == TaskStatus::Running
    }

    /// The batch after task `index` has reported back; unchanged if that
    /// task is not running.
    pub open spec fn complete(self, index: int, succeeded: bool) -> BatchView {
        if self.can_complete(index) {
            BatchView {
                status: self.status.update(
                    index,
                    if succeeded {
                        TaskStatus::Succeeded
                    } else {
                        TaskStatus::Failed
                    },
                ),
                ..self
            }
        } else {
            self
        }
    }

    /// Whether every task has reported back.
    pub open spec fn finished(self) -> bool {
        self.completed() == self.total()
    }

    /// The batch after one event.
    pub open spec fn step(self, event: BatchEvent) -> BatchView {
        match event {
            BatchEvent::Start => self.start(),
            BatchEvent::Complete { index, succeeded } => self.complete(index, succeeded),
        }
    }

    /// The batch after all of `events`, in order.
    pub open spec fn run(self, events: Seq<BatchEvent>) -> BatchView
        decreases events.len(),
    {
        if events.len() == 0 {
            self
        } else {
            self.run(events.drop_last()).step(events.last())
        }
    }
}

/// What a report changed: the text to leave on the task's progress sink if
/// the task failed, and the position of the aggregate counter afterwards.
#[derive(Debug, PartialEq, Eq)]
pub struct Completion {
    pub message: Option<String>,
    pub position: u64,
}

/// The schedule of one batch: which task starts when, and how many have
/// reported back. It decides; it runs nothing itself.
#[derive(Debug)]
pub struct Batch {
    cap: usize,
    status: Vec<TaskStatus>,
    next: usize,
    in_flight: usize,
    completed: usize,
}

impl View for Batch {
    type V = BatchView;

    closed spec fn view(&self) -> BatchView {
        BatchView { cap: self.cap as nat, status: self.status@ }
    }
}

impl Batch {
    #[verifier::type_invariant]
    spec fn inv(self) -> bool {
        &&& self@.wf()
        &&& self.next == self@.started()
        &&& self.in_flight == self@.running()
        &&& self.completed == self@.completed()
    }

    /// The schedule of `total` tasks of which at most `parallel` run at
    /// once. A `parallel` of zero would never start anything and counts as
    /// one.
    pub fn new(total: usize, parallel: usize) -> (batch: Batch)
        ensures
            batch@ == BatchView::initial(total as nat, parallel as nat),
            batch@.wf(),
    {
        let cap = if parallel == 0 {
            1
        } else {
            parallel
        };
        let mut status: Vec<TaskStatus> = Vec::new();
        let mut filled: usize = 0;
        while filled < total
            invariant
                filled <= total,
                status@ =~= Seq::new(filled as nat, |i: int| TaskStatus::Waiting),
            decreases total - filled,
        {
            status.push(TaskStatus::Waiting);
            filled += 1;
        }
        proof {
            lemma_initial(total as nat, parallel as nat);
        }
        Batch { cap, status, next: 0, in_flight: 0, completed: 0 }
    }

    /// Starts the next waiting task if a slot is free, and returns its index
    /// in the task list. Tasks start in list order. Returns `None`, and
    /// changes nothing, exactly when no task waits or no slot is free.
    pub fn start_next(&mut self) -> (started: Option<usize>)
        ensures
            old(self)@.can_start() ==> started == Some(old(self)@.started() as usize),
            !old(self)@.can_start() ==> started is None,
            final(self)@ == old(self)@.start(),
            final(self)@.wf(),
            final(self)@.running() <= final(self)@.cap,
    {
        proof {
            use_type_invariant(&*self);
            lemma_start(self@);
        }
        if self.in_flight < self.cap && self.next < self.status.len() {
            // The fields change together: the batch is taken out whole and
            // put back whole.
            let mut taken = Batch::new(0, 1);
            core::mem::swap(self, &mut taken);
            let Batch { cap, mut status, next, in_flight, completed } = taken;
            status.set(next, TaskStatus::Running);
            *self = Batch { cap, status, next: next + 1, in_flight: in_flight + 1, completed };
            Some(next)
        } else {
            None
        }
    }

    /// Records that task `index` has reported back with `outcome`. An error
    /// stays with its task: it is turned into the text for that task's
    /// progress sink and the batch goes on. The aggregate counter moves by
    /// one whether the task failed or not. Returns `None`, and changes
    /// nothing, exactly when task `index` is not running.
    pub fn complete(&mut self, index: usize, outcome: Result<(), DownloadError>) -> (report: Option<
        Completion,
    >)
        ensures
            final(self)@ == old(self)@.complete(index as int, outcome is Ok),
            final(self)@.wf(),
            report is Some <==> old(self)@.can_complete(index as int),
            report matches Some(done) ==> {
                &&& done.position == old(self)@.completed() + 1
                &&& text_of(done.message) == match outcome {
                    Ok(_) => None,
                    Err(error) => Some(error@.message()),
                }
            },
    {
        proof {
            use_type_invariant(&*self);
            lemma_complete(self@, index as int, outcome is Ok);
            lemma_count_partition(self@.status);
        }
        if index >= self.status.len() {
            return None;
        }
        match self.status[index] {
            TaskStatus::Running => {},
            _ => {
                return None;
            },
        }
        let (value, message) = match outcome {
            Ok(_) => (TaskStatus::Succeeded, None),
            Err(error) => (TaskStatus::Failed, Some(error.message())),
        };
        let mut taken = Batch::new(0, 1);
        core::mem::swap(self, &mut taken);
        let Batch { cap, mut status, next, in_flight, completed } = taken;
        status.set(index, value);
        *self = Batch { cap, status, next, in_flight: in_flight - 1, completed: completed + 1 };
        Some(Completion { message, position: (completed + 1) as u64 })
    }

    /// Whether every task has reported back. Then, and only then, nothing
    /// runs and nothing waits.
    pub fn is_finished(&self) -> (done: bool)
        ensures
            done == self@.finished(),
            done <==> self@.running() == 0 && !self@.can_start(),
    {
        proof {
            use_type_invariant(self);
            lemma_count_partition(self@.status);
        }
        self.completed == self.status.len()
    }

    /// The number of tasks in the batch: the bound of the aggregate counter.
    pub fn total_count(&self) -> (total: u64)
        ensures
            total == self@.total(),
    {
        self.status.len() as u64
    }

    /// The number of tasks that have reported back: the position of the
    /// aggregate counter. It never exceeds the number of tasks.
    pub fn completed_count(&self) -> (completed: u64)
        ensures
            completed == self@.completed(),
            completed <= self@.total(),
    {
        proof {
            use_type_invariant(self);
            lemma_count_partition(self@.status);
        }
        self.completed as u64
    }

    /// The number of tasks running at this instant; never more than the cap.
    pub fn in_flight(&self) -> (running: usize)
        ensures
            running == self@.running(),
            running <= self@.cap,
    {
        proof {
            use_type_invariant(self);
        }
        self.in_flight
    }

    /// The cap on tasks running at once; at least one.
    pub fn parallelism(&self) -> (cap: usize)
        ensures
            cap == self@.cap,
            cap >= 1,
    {
        proof {
            use_type_invariant(self);
        }
        self.cap
    }

    /// The status of task `index`, or `None` if the batch has no such task.
    pub fn status(&self, index: usize) -> (status: Option<TaskStatus>)
        ensures
            status == if index < self@.total() {
                Some(self@.status[index as int])
            } else {
                None
            },
    {
        if index < self.status.len() {
            Some(self.status[index])
        } else {
            None
        }
    }
}

/// Replacing one entry moves one unit from the count of the old value to
/// the count of the new one.
pub proof fn lemma_count_update(
    status: Seq<TaskStatus>,
    index: int,
    value: TaskStatus,
    which: TaskStatus,
)
    requires
        0 <= index < status.len(),
    ensures
        count(status.update(index, value), which) == count(status, which) - (if status[index]
            == which {
            1int
        } else {
            0int
        }) + (if value == which {
            1int
        } else {
            0int
        }),
    decreases status.len(),
{
    let updated = status.update(index, value);
    if index == status.len() - 1 {
        assert(updated.drop_last() =~= status.drop_last());
    } else {
        assert(updated.drop_last() =~= status.drop_last().update(index, value));
        lemma_count_update(status.drop_last(), index, value, which);
    }
}

/// Every task is in exactly one of the four states.
pub proof fn lemma_count_partition(status: Seq<TaskStatus>)
    ensures
        count(status, TaskStatus::Waiting) + count(status, TaskStatus::Running) + count(
            status,
            TaskStatus::Succeeded,
        ) + count(status, TaskStatus::Failed) == status.len(),
    decreases status.len(),
{
    if status.len() > 0 {
        lemma_count_partition(status.drop_last());
    }
}

/// In a list of `total` waiting tasks all are waiting and none is anything
/// else.
pub proof fn lemma_count_waiting(total: nat, which: TaskStatus)
    ensures
        count(Seq::new(total, |i: int| TaskStatus::Waiting), which) == if which
            == TaskStatus::Waiting {
            total
        } else {
            0
        },
    decreases total,
{
    let all = Seq::new(total, |i: int| TaskStatus::Waiting);
    if total > 0 {
        assert(all.drop_last() =~= Seq::new((total - 1) as nat, |i: int| TaskStatus::Waiting));
        lemma_count_waiting((total - 1) as nat, which);
    }
}

/// A fresh batch is well formed: nothing runs, nothing has started, nothing
/// has completed.
pub proof fn lemma_initial(total: nat, cap: nat)
    ensures
        BatchView::initial(total, cap).wf(),
        BatchView::initial(total, cap).total() == total,
        BatchView::initial(total, cap).running() == 0,
        BatchView::initial(total, cap).started() == 0,
        BatchView::initial(total, cap).completed() == 0,
{
    lemma_count_waiting(total, TaskStatus::Waiting);
    lemma_count_waiting(total, TaskStatus::Running);
    lemma_count_waiting(total, TaskStatus::Succeeded);
    lemma_count_waiting(total, TaskStatus::Failed);
}

/// Starting a task keeps the batch well formed. Where a task can start, it
/// is the first waiting one; one more runs and one more has started.
pub proof fn lemma_start(batch: BatchView)
    requires
        batch.wf(),
    ensures
        batch.start().wf(),
        batch.start().total() == batch.total(),
        batch.start().completed() == batch.completed(),
        batch.can_start() ==> {
            &&& batch.status[batch.started() as int] == TaskStatus::Waiting
            &&& batch.start().status[batch.started() as int] == TaskStatus::Running
            &&& batch.start().running() == batch.running() + 1
            &&& batch.start().started() == batch.started() + 1
        },
{
    if batch.can_start() {
        let at = batch.started() as int;
        let after = batch.start();
        assert(batch.status[at] == TaskStatus::Waiting);
        lemma_count_partition(batch.status);
        lemma_count_partition(after.status);
        lemma_count_update(batch.status, at, TaskStatus::Running, TaskStatus::Waiting);
        lemma_count_update(batch.status, at, TaskStatus::Running, TaskStatus::Running);
        lemma_count_update(batch.status, at, TaskStatus::Running, TaskStatus::Succeeded);
        lemma_count_update(batch.status, at, TaskStatus::Running, TaskStatus::Failed);
        assert(after.started() == at + 1);
        assert forall|i: int| 0 <= i < after.status.len() implies (after.status[i]
            == TaskStatus::Waiting <==> i >= after.started()) by {
            if i != at {
                assert(after.status[i] == batch.status[i]);
            }
        }
    }
}

/// A report keeps the batch well formed. Where it counts, one task fewer
/// runs and one more has completed, whether it succeeded or not.
pub proof fn lemma_complete(batch: BatchView, index: int, succeeded: bool)
    requires
        batch.wf(),
    ensures
        batch.complete(index, succeeded).wf(),
        batch.complete(index, succeeded).total() == batch.total(),
        batch.complete(index, succeeded).started() == batch.started(),
        batch.can_complete(index) ==> {
            &&& batch.complete(index, succeeded).running() == batch.running() - 1
            &&& batch.complete(index, succeeded).completed() == batch.completed() + 1
        },
{
    if batch.can_complete(index) {
        let value = if succeeded {
            TaskStatus::Succeeded
        } else {
            TaskStatus::Failed
        };
        let after = batch.complete(index, succeeded);
        lemma_count_partition(batch.status);
        lemma_count_partition(after.status);
        lemma_count_update(batch.status, index, value, TaskStatus::Waiting);
        lemma_count_update(batch.status, index, value, TaskStatus::Running);
        lemma_count_update(batch.status, index, value, TaskStatus::Succeeded);
        lemma_count_update(batch.status, index, value, TaskStatus::Failed);
        assert forall|i: int| 0 <= i < after.status.len() implies (after.status[i]
            == TaskStatus::Waiting <==> i >= after.started()) by {
            if i != index {
                assert(after.status[i] == batch.status[i]);
            } else {
                assert(batch.status[i] == TaskStatus::Running);
            }
        }
    }
}

/// A count of zero means that no entry has the value; a count above zero
/// means that some entry has it.
pub proof fn lemma_count_witness(status: Seq<TaskStatus>, which: TaskStatus)
    ensures
        count(status, which) == 0 ==> forall|i: int|
            0 <= i < status.len() ==> status[i] != which,
        count(status, which) > 0 ==> exists|i: int| 0 <= i < status.len() && status[i] == which,
    decreases status.len(),
{
    if status.len() > 0 {
        let front = status.drop_last();
        lemma_count_witness(front, which);
        if count(status, which) == 0 {
            assert forall|i: int| 0 <= i < status.len() implies status[i] != which by {
                if i < front.len() {
                    assert(front[i] == status[i]);
                }
            }
        } else if status.last() == which {
            assert(status[status.len() - 1] == which);
        } else {
            let i = choose|i: int| 0 <= i < front.len() && front[i] == which;
            assert(status[i] == which);
        }
    }
}

/// One event keeps a batch well formed and its size and cap as they were.
/// The aggregate counter moves by at most one and never back, and so does
/// the number of tasks started.
pub proof fn lemma_step(batch: BatchView, event: BatchEvent)
    requires
        batch.wf(),
    ensures
        batch.step(event).wf(),
        batch.step(event).total() == batch.total(),
        batch.step(event).cap == batch.cap,
        batch.completed() <= batch.step(event).completed() <= batch.completed() + 1,
        batch.started() <= batch.step(event).started() <= batch.started() + 1,
{
    match event {
        BatchEvent::Start => lemma_start(batch),
        BatchEvent::Complete { index, succeeded } => lemma_complete(batch, index, succeeded),
    }
}

/// Every state that a batch can reach is well formed, with the size and
/// cap it set out with and with counters no lower.
pub proof fn lemma_run(batch: BatchView, events: Seq<BatchEvent>)
    requires
        batch.wf(),
    ensures
        batch.run(events).wf(),
        batch.run(events).total() == batch.total(),
        batch.run(events).cap == batch.cap,
        batch.completed() <= batch.run(events).completed(),
        batch.started() <= batch.run(events).started(),
    decreases events.len(),
{
    if events.len() > 0 {
        lemma_run(batch, events.drop_last());
        lemma_step(batch.run(events.drop_last()), events.last());
    }
}

/// For any number of tasks and any cap, at no instant of a download do
/// more tasks run than the cap allows, whatever is started and whatever
/// reports back, in whatever order.
pub proof fn lemma_cap_respected(total: nat, cap: nat, events: Seq<BatchEvent>)
    ensures
        BatchView::initial(total, cap).run(events).wf(),
        BatchView::initial(total, cap).run(events).running() <= if cap == 0 {
            1
        } else {
            cap
        },
{
    lemma_initial(total, cap);
    lemma_run(BatchView::initial(total, cap), events);
}

/// The aggregate counter never passes the number of tasks, and it stands
/// at that number exactly when nothing runs and nothing can start.
pub proof fn lemma_finished_iff_idle(batch: BatchView)
    requires
        batch.wf(),
    ensures
        batch.completed() <= batch.total(),
        batch.finished() <==> batch.running() == 0 && !batch.can_start(),
{
    lemma_count_partition(batch.status);
}

/// Once a download has nothing running and nothing left to start, the
/// aggregate counter equals the number of tasks, however many of them
/// failed.
pub proof fn lemma_completed_equals_total(total: nat, cap: nat, events: Seq<BatchEvent>)
    ensures
        BatchView::initial(total, cap).run(events).completed() <= total,
        ({
            let end = BatchView::initial(total, cap).run(events);
            end.running() == 0 && !end.can_start()
        }) ==> BatchView::initial(total, cap).run(events).completed() == total,
{
    lemma_initial(total, cap);
    lemma_run(BatchView::initial(total, cap), events);
    lemma_finished_iff_idle(BatchView::initial(total, cap).run(events));
}

/// A task is counted exactly once: its first report moves the aggregate
/// counter by one, failed or not, and a second report for it changes
/// nothing.
pub proof fn lemma_report_counts_once(batch: BatchView, index: int, first: bool, second: bool)
    requires
        batch.wf(),
        batch.can_complete(index),
    ensures
        batch.complete(index, first).completed() == batch.completed() + 1,
        !batch.complete(index, first).can_complete(index),
        batch.complete(index, first).complete(index, second) == batch.complete(index, first),
{
    lemma_complete(batch, index, first);
}

/// A failure stays with its task. Whether a running task fails or
/// succeeds, every other task stands as before, the same number of tasks
/// run, the same task starts next, and the aggregate counter reads the
/// same. A sibling that runs can still report success afterwards.
pub proof fn lemma_failure_is_isolated(batch: BatchView, failed: int, sibling: int)
    requires
        batch.wf(),
        batch.can_complete(failed),
        0 <= sibling < batch.total(),
        sibling != failed,
    ensures
        batch.complete(failed, false).status[sibling] == batch.status[sibling],
        batch.complete(failed, false).running() == batch.complete(failed, true).running(),
        batch.complete(failed, false).started() == batch.complete(failed, true).started(),
        batch.complete(failed, false).can_start() == batch.complete(failed, true).can_start(),
        batch.complete(failed, false).completed() == batch.complete(failed, true).completed(),
        batch.can_complete(sibling) ==> batch.complete(failed, false).complete(
            sibling,
            true,
        ).status[sibling] == TaskStatus::Succeeded,
{
    lemma_complete(batch, failed, false);
    lemma_complete(batch, failed, true);
}

/// With a cap of one, a task starts only when every task before it in the
/// list has reported back.
pub proof fn lemma_one_at_a_time(batch: BatchView)
    requires
        batch.wf(),
        batch.cap == 1,
        batch.can_start(),
    ensures
        forall|i: int|
            0 <= i < batch.started() ==> batch.status[i] == TaskStatus::Succeeded
                || batch.status[i] == TaskStatus::Failed,
{
    lemma_count_witness(batch.status, TaskStatus::Running);
}

/// A download cannot stall: while a task has not reported back, either a
/// task can start or a task is running and can report.
pub proof fn lemma_never_stuck(batch: BatchView)
    requires
        batch.wf(),
        !batch.finished(),
    ensures
        batch.can_start() || exists|i: int| batch.can_complete(i),
{
    lemma_count_partition(batch.status);
    lemma_count_witness(batch.status, TaskStatus::Running);
    if !batch.can_start() {
        let i = choose|i: int| 0 <= i < batch.status.len() && batch.status[i] == TaskStatus::Running;
        assert(batch.can_complete(i));
    }
}

/// A cap of zero is a cap of one.
pub proof fn lemma_zero_cap_is_one(total: nat)
    ensures
        BatchView::initial(total, 0) == BatchView::initial(total, 1),
{
}

} // verus!
