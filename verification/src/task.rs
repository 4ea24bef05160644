//! The bookkeeping for the one network operation that a widget may have in
//! flight.
use crate::error::{ErrorView, TaskError};
use vstd::prelude::*;

verus! {

/// Where a widget's operation stands.
#[derive(Debug, PartialEq, Eq)]
pub enum TaskState {
    /// Nothing was started, or the widget was torn down.
    Idle,
    /// An operation is in flight.
    Running,
    /// The last operation succeeded.
    Succeeded,
    /// The last operation failed.
    Failed(TaskError),
}

/// The state of an operation, over texts.
pub enum TaskStateView {
    Idle,
    Running,
    Succeeded,
    Failed(ErrorView),
}

impl View for TaskState {
    type V = TaskStateView;

    open spec fn view(&self) -> TaskStateView {
        match self {
            TaskState::Idle => TaskStateView::Idle,
            TaskState::Running => TaskStateView::Running,
            TaskState::Succeeded => TaskStateView::Succeeded,
            TaskState::Failed(error) => TaskStateView::Failed(error@),
        }
    }
}

/// Names one started operation. A completion carries the handle of the
/// operation that it completes.
#[derive(Debug, PartialEq, Eq, Clone, Copy)]
pub struct TaskHandle {
    generation: u64,
}

impl View for TaskHandle {
    type V = nat;

    closed spec fn view(&self) -> nat {
        self.generation as nat
    }
}

impl DeepView for TaskHandle {
    type V = nat;

    open spec fn deep_view(&self) -> nat {
        self@
    }
}

impl TaskHandle {
    /// The number of the operation: the first one started has number 1.
    pub fn generation(&self) -> (number: u64)
        ensures
            number == self@,
    {
        self.generation
    }
}

/// The bookkeeping of a widget's operations: the state of the latest one, and
/// how many were started.
pub struct TaskView {
    pub state: TaskStateView,
    pub generation: nat,
}

impl TaskView {
    /// A completion that carries `handle` is taken: an operation is in flight,
    /// and it is the one that the handle names.
    pub open spec fn accepts(self, handle: nat) -> bool {
        self.state is Running && handle == self.generation
    }

    /// After one more operation was started.
    pub open spec fn started(self) -> TaskView {
        TaskView { state: TaskStateView::Running, generation: self.generation + 1 }
    }

    /// After a completion with `handle` arrived; `failure` is the error of a
    /// failed operation. A completion that is not taken changes nothing.
    pub open spec fn completed(self, handle: nat, failure: Option<ErrorView>) -> TaskView {
        if self.accepts(handle) {
            TaskView {
                state: match failure {
                    None => TaskStateView::Succeeded,
                    Some(error) => TaskStateView::Failed(error),
                },
                ..self
            }
        } else {
            self
        }
    }

    /// After the widget was torn down.
    pub open spec fn torn_down(self) -> TaskView {
        TaskView { state: TaskStateView::Idle, ..self }
    }
}

/// The failure in an outcome, if it is one.
pub open spec fn failure_of<T>(outcome: Result<T, TaskError>) -> Option<ErrorView> {
    match outcome {
        Ok(_) => None,
        Err(error) => Some(error@),
    }
}

/// Tracks the one operation that a widget has in flight. Starting another
/// supersedes the one before: only the completion of the latest is taken.
pub struct AsyncTask {
    state: TaskState,
    generation: u64,
}

impl View for AsyncTask {
    type V = TaskView;

    closed spec fn view(&self) -> TaskView {
        TaskView { state: self.state@, generation: self.generation as nat }
    }
}

impl AsyncTask {
    /// The largest number of operations that one widget can start.
    pub open spec fn capacity() -> nat {
        u64::MAX as nat
    }

    /// Nothing started yet.
    pub fn new() -> (task: Self)
        ensures
            task@ == (TaskView { state: TaskStateView::Idle, generation: 0 }),
    {
        AsyncTask { state: TaskState::Idle, generation: 0 }
    }

    /// Whether an operation is in flight.
    pub fn is_busy(&self) -> (busy: bool)
        ensures
            busy == (self@.state is Running),
    {
        match self.state {
            TaskState::Running => true,
            _ => false,
        }
    }

    /// Where the latest operation stands.
    pub fn state(&self) -> (state: &TaskState)
        ensures
            state@ == self@.state,
    {
        &self.state
    }

    /// Whether one more operation can be started.
    pub fn can_start(&self) -> (room: bool)
        ensures
            room == (self@.generation < Self::capacity()),
    {
        self.generation < u64::MAX
    }

    /// Starts an operation and returns its handle. An operation that was in
    /// flight is superseded, whether or not its completion ever arrives.
    pub fn start(&mut self) -> (handle: TaskHandle)
        requires
            old(self)@.generation < Self::capacity(),
        ensures
            final(self)@ == old(self)@.started(),
            handle@ == final(self)@.generation,
    {
        self.generation = self.generation + 1;
        self.state = TaskState::Running;
        TaskHandle { generation: self.generation }
    }

    /// Whether a completion that carries `handle` would be taken.
    pub fn accepts(&self, handle: TaskHandle) -> (taken: bool)
        ensures
            taken == self@.accepts(handle@),
    {
        self.is_busy() && handle.generation == self.generation
    }

    /// A completion arrived. Where it belongs to the operation in flight, that
    /// operation is over and the outcome is handed on; where it is stale,
    /// nothing changes and nothing is handed on.
    pub fn complete<T>(&mut self, handle: TaskHandle, outcome: Result<T, TaskError>) -> (delivered:
        Option<Result<T, TaskError>>)
        ensures
            final(self)@ == old(self)@.completed(handle@, failure_of(outcome)),
            delivered == if old(self)@.accepts(handle@) {
                Some(outcome)
            } else {
                None
            },
    {
        if !self.accepts(handle) {
            return None;
        }
        match &outcome {
            Ok(_) => {
                self.state = TaskState::Succeeded;
            },
            Err(error) => {
                self.state = TaskState::Failed(error.clone());
            },
        }
        Some(outcome)
    }

    /// The widget goes away: whatever completion arrives later is stale.
    pub fn teardown(&mut self)
        ensures
            final(self)@ == old(self)@.torn_down(),
    {
        self.state = TaskState::Idle;
    }
}

/// Of two operations started one after the other, only the second counts:
/// once it is started, a completion of the first is stale and changes
/// nothing, while the completion of the second is taken.
pub proof fn lemma_restart_supersedes(task: TaskView, failure: Option<ErrorView>)
    ensures
        ({
            let first = task.started();
            let second = first.started();
            &&& first.accepts(first.generation)
            &&& !second.accepts(first.generation)
            &&& second.completed(first.generation, failure) == second
            &&& second.accepts(second.generation)
        }),
{
}

/// A completion is taken once: after it, the same handle is stale.
pub proof fn lemma_completes_once(
    task: TaskView,
    handle: nat,
    failure: Option<ErrorView>,
    again: Option<ErrorView>,
)
    ensures
        !task.completed(handle, failure).accepts(handle),
        task.completed(handle, failure).completed(handle, again) == task.completed(handle, failure),
{
}

/// After the widget was torn down every completion is stale.
pub proof fn lemma_teardown_discards(task: TaskView, handle: nat, failure: Option<ErrorView>)
    ensures
        !task.torn_down().accepts(handle),
        task.torn_down().completed(handle, failure) == task.torn_down(),
{
}

} // verus!
