use directory_console::error::{ErrorSink, TaskError};
use directory_console::task::{AsyncTask, TaskState};

#[test]
fn new_task_is_idle() {
    let task = AsyncTask::new();
    assert!(!task.is_busy());
    assert!(task.can_start());
    assert_eq!(task.state(), &TaskState::Idle);
}

#[test]
fn start_then_success() {
    let mut task = AsyncTask::new();
    let handle = task.start();
    assert_eq!(handle.generation(), 1);
    assert!(task.is_busy());
    assert!(task.accepts(handle));
    assert_eq!(task.complete(handle, Ok::<u32, TaskError>(7)), Some(Ok(7)));
    assert!(!task.is_busy());
    assert_eq!(task.state(), &TaskState::Succeeded);
}

#[test]
fn start_then_failure() {
    let mut task = AsyncTask::new();
    let handle = task.start();
    let error = TaskError::Network("down".to_string());
    assert_eq!(
        task.complete(handle, Err::<u32, TaskError>(TaskError::Network("down".to_string()))),
        Some(Err(TaskError::Network("down".to_string())))
    );
    assert_eq!(task.state(), &TaskState::Failed(error));
    assert!(!task.is_busy());
}

#[test]
fn completion_is_taken_once() {
    let mut task = AsyncTask::new();
    let handle = task.start();
    assert_eq!(task.complete(handle, Ok::<u32, TaskError>(1)), Some(Ok(1)));
    assert_eq!(task.complete(handle, Ok::<u32, TaskError>(2)), None);
    assert_eq!(
        task.complete(handle, Err::<u32, TaskError>(TaskError::Network("late".to_string()))),
        None
    );
    assert_eq!(task.state(), &TaskState::Succeeded);
}

#[test]
fn restart_supersedes_the_first_operation() {
    let mut task = AsyncTask::new();
    let first = task.start();
    let second = task.start();
    assert_eq!(first.generation(), 1);
    assert_eq!(second.generation(), 2);
    assert!(!task.accepts(first));
    assert!(task.accepts(second));
    assert_eq!(
        task.complete(first, Err::<u32, TaskError>(TaskError::Network("old".to_string()))),
        None
    );
    assert!(task.is_busy());
    assert_eq!(task.complete(second, Ok::<u32, TaskError>(9)), Some(Ok(9)));
    assert_eq!(task.state(), &TaskState::Succeeded);
}

#[test]
fn teardown_discards_pending_completion() {
    let mut task = AsyncTask::new();
    let handle = task.start();
    task.teardown();
    assert!(!task.is_busy());
    assert!(!task.accepts(handle));
    assert_eq!(task.complete(handle, Ok::<u32, TaskError>(3)), None);
    assert_eq!(task.state(), &TaskState::Idle);
    let next = task.start();
    assert_eq!(next.generation(), 2);
    assert_eq!(task.complete(handle, Ok::<u32, TaskError>(3)), None);
    assert_eq!(task.complete(next, Ok::<u32, TaskError>(4)), Some(Ok(4)));
}

#[test]
fn error_kinds_and_messages() {
    let network = TaskError::Network("timeout".to_string());
    let validation = TaskError::Validation("empty".to_string());
    assert!(network.is_network());
    assert!(!validation.is_network());
    assert_eq!(network.message(), "timeout");
    assert_eq!(validation.message(), "empty");
    assert_eq!(network.clone(), network);
    assert_eq!(
        TaskError::busy(),
        TaskError::Validation("An operation is still in progress".to_string())
    );
}

#[test]
fn sink_keeps_and_forwards() {
    let mut sink = ErrorSink::new();
    assert_eq!(sink.last_error(), &None);
    let forwarded = sink.surface(TaskError::Network("first".to_string()));
    assert_eq!(forwarded, TaskError::Network("first".to_string()));
    assert_eq!(sink.last_error(), &Some(TaskError::Network("first".to_string())));
    let forwarded = sink.surface(TaskError::Validation("second".to_string()));
    assert_eq!(forwarded, TaskError::Validation("second".to_string()));
    assert_eq!(sink.last_error(), &Some(TaskError::Validation("second".to_string())));
    sink.clear();
    assert_eq!(sink.last_error(), &None);
}
