//! The sequential batch: one operation for each selected item, strictly one
//! after the other, in the order of the selection, stopping at the first
//! failure.
use crate::error::{ErrorView, TaskError};
use vstd::prelude::*;

verus! {

/// Where a batch stands.
#[derive(Debug, PartialEq, Eq)]
pub enum JobStatus {
    /// Nothing was submitted.
    Idle,
    /// The operation for the item under the cursor is in flight.
    Running,
    /// Every item went through.
    Done,
    /// The operation for the item under the cursor failed; the batch stopped
    /// there.
    Failed(TaskError),
}

/// The status of a batch, over texts.
pub enum JobStatusView {
    Idle,
    Running,
    Done,
    Failed(ErrorView),
}

impl View for JobStatus {
    type V = JobStatusView;

    open spec fn view(&self) -> JobStatusView {
        match self {
            JobStatus::Idle => JobStatusView::Idle,
            JobStatus::Running => JobStatusView::Running,
            JobStatus::Done => JobStatusView::Done,
            JobStatus::Failed(error) => JobStatusView::Failed(error@),
        }
    }
}

/// What a batch asks of its owner. The numbers are positions in the batch's
/// items.
#[derive(Debug, PartialEq, Eq, Clone, Copy)]
pub enum BatchCommand {
    /// Issue the operation for the item at this position.
    Dispatch(usize),
    /// The operation for the item at this position took effect: tell the
    /// listener.
    Committed(usize),
    /// The last item went through: tell the listener that the batch is done.
    Finished,
}

/// A command of a batch, with positions as natural numbers.
pub enum Step {
    Dispatch(nat),
    Committed(nat),
    Finished,
}

impl View for BatchCommand {
    type V = Step;

    open spec fn view(&self) -> Step {
        match self {
            BatchCommand::Dispatch(at) => Step::Dispatch(*at as nat),
            BatchCommand::Committed(at) => Step::Committed(*at as nat),
            BatchCommand::Finished => Step::Finished,
        }
    }
}

impl DeepView for BatchCommand {
    type V = Step;

    open spec fn deep_view(&self) -> Step {
        self@
    }
}

/// A batch: the items as they were when the batch was submitted, the position
/// of the item whose operation is in flight or comes next, and the status.
pub struct JobView<T> {
    pub items: Seq<T>,
    pub cursor: nat,
    pub status: JobStatusView,
}

impl<T> JobView<T> {
    /// The cursor stays within the items, and agrees with the status: it is at
    /// the start before anything was submitted, on an item while the batch
    /// runs or after it failed, and past the last item once the batch is done.
    pub open spec fn wf(self) -> bool {
        match self.status {
            JobStatusView::Idle => self.cursor == 0,
            JobStatusView::Running => self.cursor < self.items.len(),
            JobStatusView::Done => self.cursor == self.items.len(),
            JobStatusView::Failed(_) => self.cursor < self.items.len(),
        }
    }

    /// The batch before anything was submitted.
    pub open spec fn idle() -> JobView<T> {
        JobView { items: Seq::empty(), cursor: 0, status: JobStatusView::Idle }
    }

    /// The batch that submitting `items` creates.
    pub open spec fn submitted(items: Seq<T>) -> JobView<T> {
        JobView { items, cursor: 0, status: JobStatusView::Running }
    }

    /// What submitting asks for: the operation for the first item.
    pub open spec fn first_commands() -> Seq<Step> {
        seq![Step::Dispatch(0)]
    }

    /// The batch after a completion arrived: `None` for success, or the
    /// failure. Success moves the cursor by one, and ends the batch where that
    /// was the last item. Failure stops the batch with the cursor where it is.
    /// A batch that is not running ignores completions.
    pub open spec fn after(self, outcome: Option<ErrorView>) -> JobView<T> {
        if !(self.status is Running) {
            self
        } else {
            match outcome {
                None => JobView {
                    cursor: self.cursor + 1,
                    status: if self.cursor + 1 == self.items.len() {
                        JobStatusView::Done
                    } else {
                        JobStatusView::Running
                    },
                    ..self
                },
                Some(error) => JobView { status: JobStatusView::Failed(error), ..self },
            }
        }
    }

    /// What a completion makes the batch ask for. After a success: to tell the
    /// listener that the item under the cursor is committed, and then either
    /// the operation for the next item or, after the last item, that the batch
    /// is done. After a failure, and where the batch is not running: nothing.
    pub open spec fn commands(self, outcome: Option<ErrorView>) -> Seq<Step> {
        if self.status is Running && outcome is None {
            seq![
                Step::Committed(self.cursor),
                if self.cursor + 1 == self.items.len() {
                    Step::Finished
                } else {
                    Step::Dispatch(self.cursor + 1)
                },
            ]
        } else {
            Seq::empty()
        }
    }

    /// The batch after a run of completions, in the order of their arrival.
    pub open spec fn after_all(self, outcomes: Seq<Option<ErrorView>>) -> JobView<T>
        decreases outcomes.len(),
    {
        if outcomes.len() == 0 {
            self
        } else {
            self.after_all(outcomes.drop_last()).after(outcomes.last())
        }
    }

    /// Everything that a run of completions makes the batch ask for, in order.
    pub open spec fn trace(self, outcomes: Seq<Option<ErrorView>>) -> Seq<Step>
        decreases outcomes.len(),
    {
        if outcomes.len() == 0 {
            Seq::empty()
        } else {
            self.trace(outcomes.drop_last()) + self.after_all(outcomes.drop_last()).commands(
                outcomes.last(),
            )
        }
    }
}

/// Whether the position that a command names, if any, lies within a batch of
/// `len` items.
pub open spec fn in_range(step: Step, len: nat) -> bool {
    match step {
        Step::Dispatch(at) => at < len,
        Step::Committed(at) => at < len,
        Step::Finished => true,
    }
}

/// Whether `commands` can be what a batch of `len` items asks for at one
/// moment: one or two commands, each position within the batch, and a request
/// only in the last place.
pub open spec fn orderly(commands: Seq<Step>, len: nat) -> bool {
    &&& 1 <= commands.len() <= 2
    &&& forall|i: int| 0 <= i < commands.len() ==> in_range(#[trigger] commands[i], len)
    &&& commands.len() == 2 ==> !(commands[0] is Dispatch)
}

/// Where a batch is: the cursor and the status, which change together.
struct Position {
    cursor: usize,
    status: JobStatus,
}

/// A batch of items of any kind. It decides what happens next; issuing the
/// operations and telling the listener is its owner's part.
///
/// Whatever is done to a batch, it stays well formed in the sense of
/// [`JobView::wf`].
pub struct BatchJob<T: DeepView> {
    items: Vec<T>,
    position: Position,
}

impl<T: DeepView> View for BatchJob<T> {
    type V = JobView<T::V>;

    closed spec fn view(&self) -> JobView<T::V> {
        JobView {
            items: self.items.deep_view(),
            cursor: self.position.cursor as nat,
            status: self.position.status@,
        }
    }
}

impl<T: DeepView> BatchJob<T> {
    /// What holds of every batch: see [`JobView::wf`].
    #[verifier::type_invariant]
    pub open spec fn well_formed(self) -> bool {
        self@.wf()
    }

    /// The batch before anything was submitted.
    pub fn idle() -> (job: Self)
        ensures
            job@ == JobView::<T::V>::idle(),
    {
        let items: Vec<T> = Vec::new();
        assert(items.deep_view() =~= Seq::<T::V>::empty());
        BatchJob { items, position: Position { cursor: 0, status: JobStatus::Idle } }
    }

    /// Submits a selection. An empty one creates no batch and asks for
    /// nothing. Any other creates a running batch that holds the items from
    /// now on, and asks for the first item's operation.
    pub fn submit(items: Vec<T>) -> (started: Option<(BatchJob<T>, Vec<BatchCommand>)>)
        ensures
            started is None <==> items@.len() == 0,
            started matches Some((job, commands)) ==> {
                &&& job@ == JobView::submitted(items.deep_view())
                &&& commands.deep_view() == JobView::<T::V>::first_commands()
            },
    {
        if items.len() == 0 {
            return None;
        }
        let mut commands: Vec<BatchCommand> = Vec::new();
        commands.push(BatchCommand::Dispatch(0));
        Some(
            (
                BatchJob { items, position: Position { cursor: 0, status: JobStatus::Running } },
                commands,
            ),
        )
    }

    /// The items, as they were submitted.
    pub fn items(&self) -> (items: &Vec<T>)
        ensures
            self@.wf(),
            items.deep_view() == self@.items,
    {
        proof {
            use_type_invariant(self);
        }
        &self.items
    }

    /// The position of the item whose operation is in flight, failed, or
    /// comes next.
    pub fn cursor(&self) -> (cursor: usize)
        ensures
            self@.wf(),
            cursor == self@.cursor,
    {
        proof {
            use_type_invariant(self);
        }
        self.position.cursor
    }

    /// Where the batch stands.
    pub fn status(&self) -> (status: &JobStatus)
        ensures
            self@.wf(),
            status@ == self@.status,
    {
        proof {
            use_type_invariant(self);
        }
        &self.position.status
    }

    /// Whether an operation of the batch is in flight.
    pub fn is_running(&self) -> (running: bool)
        ensures
            self@.wf(),
            running == (self@.status is Running),
    {
        proof {
            use_type_invariant(self);
        }
        match self.position.status {
            JobStatus::Running => true,
            _ => false,
        }
    }

    /// The item under the cursor, while the batch runs or after it failed.
    pub fn current(&self) -> (item: Option<&T>)
        ensures
            self@.wf(),
            item is Some <==> self@.cursor < self@.items.len(),
            item matches Some(found) ==> found.deep_view() == self@.items[self@.cursor as int],
    {
        proof {
            use_type_invariant(self);
        }
        if self.position.cursor < self.items.len() {
            Some(&self.items[self.position.cursor])
        } else {
            None
        }
    }

    /// The operation in flight succeeded. See [`JobView::after`] and
    /// [`JobView::commands`].
    pub fn step_succeeded(&mut self) -> (commands: Vec<BatchCommand>)
        ensures
            old(self)@.wf(),
            final(self)@.wf(),
            final(self)@ == old(self)@.after(None),
            commands.deep_view() == old(self)@.commands(None),
    {
        proof {
            use_type_invariant(&*self);
        }
        let mut commands: Vec<BatchCommand> = Vec::new();
        if !self.is_running() {
            return commands;
        }
        let len = self.items.len();
        let at = self.position.cursor;
        commands.push(BatchCommand::Committed(at));
        if at + 1 == len {
            self.position = Position { cursor: at + 1, status: JobStatus::Done };
            commands.push(BatchCommand::Finished);
        } else {
            self.position = Position { cursor: at + 1, status: JobStatus::Running };
            commands.push(BatchCommand::Dispatch(at + 1));
        }
        commands
    }

    /// The operation in flight failed: the batch stops where it is. Nothing
    /// that went through before is undone, and nothing is asked for.
    pub fn step_failed(&mut self, error: TaskError)
        ensures
            old(self)@.wf(),
            final(self)@.wf(),
            final(self)@ == old(self)@.after(Some(error@)),
    {
        proof {
            use_type_invariant(&*self);
        }
        if self.is_running() {
            self.position = Position {
                cursor: self.position.cursor,
                status: JobStatus::Failed(error),
            };
        }
    }
}

/// A run of `n` successes.
pub open spec fn successes(n: nat) -> Seq<Option<ErrorView>> {
    Seq::new(n, |i: int| None::<ErrorView>)
}

/// The positions `0, 1, ..., n - 1`, in this order.
pub open spec fn positions(n: nat) -> Seq<nat> {
    Seq::new(n, |i: int| i as nat)
}

/// The positions whose operations the commands ask for, in order.
pub open spec fn dispatched(commands: Seq<Step>) -> Seq<nat>
    decreases commands.len(),
{
    if commands.len() == 0 {
        Seq::empty()
    } else {
        match commands.last() {
            Step::Dispatch(at) => dispatched(commands.drop_last()).push(at),
            _ => dispatched(commands.drop_last()),
        }
    }
}

/// The positions that the commands report as committed, in order.
pub open spec fn committed(commands: Seq<Step>) -> Seq<nat>
    decreases commands.len(),
{
    if commands.len() == 0 {
        Seq::empty()
    } else {
        match commands.last() {
            Step::Committed(at) => committed(commands.drop_last()).push(at),
            _ => committed(commands.drop_last()),
        }
    }
}

/// The commands of a batch up to the moment when the operation at position
/// `k` is in flight: each earlier operation is asked for, then reported as
/// committed, before the next one is asked for.
pub open spec fn progress(k: nat) -> Seq<Step> {
    Seq::new(
        2 * k + 1,
        |i: int|
            if i % 2 == 0 {
                Step::Dispatch((i / 2) as nat)
            } else {
                Step::Committed((i / 2) as nat)
            },
    )
}

/// All the commands of a batch of `n` items that went through.
pub open spec fn full_run(n: nat) -> Seq<Step>
    recommends
        n > 0,
{
    progress((n - 1) as nat) + seq![Step::Committed((n - 1) as nat), Step::Finished]
}

/// What one more command adds to the positions asked for and to those
/// reported as committed.
pub proof fn lemma_counts_push(commands: Seq<Step>, step: Step)
    ensures
        dispatched(commands.push(step)) == match step {
            Step::Dispatch(at) => dispatched(commands).push(at),
            _ => dispatched(commands),
        },
        committed(commands.push(step)) == match step {
            Step::Committed(at) => committed(commands).push(at),
            _ => committed(commands),
        },
{
    assert(commands.push(step).drop_last() =~= commands);
}

/// The commands up to the operation at `k` ask for the operations at
/// `0, ..., k` and report `0, ..., k - 1` as committed.
pub proof fn lemma_progress_counts(k: nat)
    ensures
        dispatched(progress(k)) == positions(k + 1),
        committed(progress(k)) == positions(k),
    decreases k,
{
    if k == 0 {
        let none = Seq::<Step>::empty();
        lemma_counts_push(none, Step::Dispatch(0));
        assert(progress(0) =~= none.push(Step::Dispatch(0)));
    } else {
        let before = progress((k - 1) as nat);
        let middle = before.push(Step::Committed((k - 1) as nat));
        lemma_progress_counts((k - 1) as nat);
        lemma_counts_push(before, Step::Committed((k - 1) as nat));
        lemma_counts_push(middle, Step::Dispatch(k));
        assert(progress(k) =~= middle.push(Step::Dispatch(k)));
    }
}

/// Completions that arrive one run after another act as the two runs in turn.
pub proof fn lemma_runs_compose<T>(
    job: JobView<T>,
    first: Seq<Option<ErrorView>>,
    second: Seq<Option<ErrorView>>,
)
    ensures
        job.after_all(first + second) == job.after_all(first).after_all(second),
        job.trace(first + second) == job.trace(first) + job.after_all(first).trace(second),
    decreases second.len(),
{
    if second.len() > 0 {
        lemma_runs_compose(job, first, second.drop_last());
        assert((first + second).drop_last() =~= first + second.drop_last());
    }
}

/// A batch that is not running ignores whatever completions arrive: it stays
/// as it is and asks for nothing.
pub proof fn lemma_halted_ignores<T>(job: JobView<T>, outcomes: Seq<Option<ErrorView>>)
    requires
        !(job.status is Running),
    ensures
        job.after_all(outcomes) == job,
        job.trace(outcomes) == Seq::<Step>::empty(),
    decreases outcomes.len(),
{
    if outcomes.len() > 0 {
        lemma_halted_ignores(job, outcomes.drop_last());
    }
}

/// One completion moves the cursor by one where it is the success of a
/// running batch, and leaves it where it is otherwise; the items stay as they
/// were submitted; and it makes the batch ask for at most one operation, the
/// one under the new cursor, and only after that success.
pub proof fn lemma_one_step<T>(job: JobView<T>, outcome: Option<ErrorView>)
    requires
        job.wf(),
    ensures
        job.after(outcome).wf(),
        job.after(outcome).items == job.items,
        job.after(outcome).cursor == if job.status is Running && outcome is None {
            job.cursor + 1
        } else {
            job.cursor
        },
        dispatched(job.commands(outcome)) == if job.after(outcome).status is Running
            && outcome is None {
            seq![job.after(outcome).cursor]
        } else {
            Seq::<nat>::empty()
        },
        committed(job.commands(outcome)) == if job.status is Running && outcome is None {
            seq![job.cursor]
        } else {
            Seq::<nat>::empty()
        },
{
    let commands = job.commands(outcome);
    let none = Seq::<Step>::empty();
    if job.status is Running && outcome is None {
        let head = none.push(Step::Committed(job.cursor));
        let next = if job.cursor + 1 == job.items.len() {
            Step::Finished
        } else {
            Step::Dispatch(job.cursor + 1)
        };
        lemma_counts_push(none, Step::Committed(job.cursor));
        lemma_counts_push(head, next);
        assert(commands =~= head.push(next));
    }
}

/// While the first `k` operations of a batch have succeeded and more items
/// wait, the batch runs with its cursor at `k`, and what it has asked for is
/// exactly [`progress`]`(k)`.
pub proof fn lemma_running_prefix<T>(items: Seq<T>, k: nat)
    requires
        k < items.len(),
    ensures
        JobView::submitted(items).after_all(successes(k)) == (JobView {
            items,
            cursor: k,
            status: JobStatusView::Running,
        }),
        JobView::<T>::first_commands() + JobView::submitted(items).trace(successes(k))
            == progress(k),
    decreases k,
{
    let start = JobView::submitted(items);
    if k > 0 {
        let j = (k - 1) as nat;
        lemma_running_prefix(items, j);
        assert(successes(k).drop_last() =~= successes(j));
        let added = seq![Step::Committed(j), Step::Dispatch(k)];
        assert(JobView::<T>::first_commands() + start.trace(successes(k)) =~= progress(j) + added);
    }
}

/// A selection of `n` items whose operations all succeed: the batch ends done
/// with its cursor past the last item. It has asked for exactly `n`
/// operations, for the items in the order of the selection, each one only
/// after the one before was reported as committed, and has reported the `n`
/// items as committed in the same order.
pub proof fn lemma_all_succeed<T>(items: Seq<T>)
    requires
        items.len() > 0,
    ensures
        ({
            let n = items.len();
            let start = JobView::submitted(items);
            let commands = JobView::<T>::first_commands() + start.trace(successes(n));
            &&& start.after_all(successes(n)) == (JobView {
                items,
                cursor: n,
                status: JobStatusView::Done,
            })
            &&& commands == full_run(n)
            &&& dispatched(commands) == positions(n)
            &&& committed(commands) == positions(n)
        }),
{
    let n = items.len();
    let last = (n - 1) as nat;
    let start = JobView::submitted(items);
    let commands = JobView::<T>::first_commands() + start.trace(successes(n));
    lemma_running_prefix(items, last);
    lemma_progress_counts(last);
    assert(successes(n).drop_last() =~= successes(last));
    let middle = progress(last).push(Step::Committed(last));
    lemma_counts_push(progress(last), Step::Committed(last));
    lemma_counts_push(middle, Step::Finished);
    assert(commands =~= middle.push(Step::Finished));
}

/// The operation for the `i`-th item (counted from 1) fails after those
/// before it succeeded: the batch ends failed with that error and its cursor
/// on the `i`-th item. It has asked for exactly `i` operations and reported
/// exactly the `i - 1` items before as committed, and whatever completions
/// arrive later change nothing and make it ask for nothing.
pub proof fn lemma_fails_at<T>(
    items: Seq<T>,
    i: nat,
    error: ErrorView,
    later: Seq<Option<ErrorView>>,
)
    requires
        1 <= i <= items.len(),
    ensures
        ({
            let start = JobView::submitted(items);
            let outcomes = successes((i - 1) as nat).push(Some(error)) + later;
            let commands = JobView::<T>::first_commands() + start.trace(outcomes);
            &&& start.after_all(outcomes) == (JobView {
                items,
                cursor: (i - 1) as nat,
                status: JobStatusView::Failed(error),
            })
            &&& commands == progress((i - 1) as nat)
            &&& dispatched(commands) == positions(i)
            &&& committed(commands) == positions((i - 1) as nat)
        }),
{
    let k = (i - 1) as nat;
    let start = JobView::submitted(items);
    let until = successes(k).push(Some(error));
    lemma_running_prefix(items, k);
    lemma_progress_counts(k);
    assert(until.drop_last() =~= successes(k));
    let stopped = start.after_all(until);
    lemma_halted_ignores(stopped, later);
    lemma_runs_compose(start, until, later);
}

} // verus!
