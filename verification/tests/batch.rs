use directory_console::batch::{BatchCommand, BatchJob, JobStatus};
use directory_console::error::TaskError;

fn names(items: &[&str]) -> Vec<String> {
    items.iter().map(|s| s.to_string()).collect()
}

#[test]
fn empty_selection_creates_no_batch() {
    assert!(BatchJob::<String>::submit(vec![]).is_none());
}

#[test]
fn idle_batch_ignores_completions() {
    let mut job = BatchJob::<String>::idle();
    assert_eq!(job.status(), &JobStatus::Idle);
    assert_eq!(job.cursor(), 0);
    assert!(!job.is_running());
    assert_eq!(job.current(), None);
    assert_eq!(job.step_succeeded(), vec![]);
    job.step_failed(TaskError::Network("late".to_string()));
    assert_eq!(job.status(), &JobStatus::Idle);
    assert_eq!(job.cursor(), 0);
}

#[test]
fn three_items_all_succeed() {
    let (mut job, first) = BatchJob::submit(names(&["u1", "u2", "u3"])).unwrap();
    assert_eq!(first, vec![BatchCommand::Dispatch(0)]);
    assert!(job.is_running());
    assert_eq!(job.current(), Some(&"u1".to_string()));
    assert_eq!(
        job.step_succeeded(),
        vec![BatchCommand::Committed(0), BatchCommand::Dispatch(1)]
    );
    assert_eq!(job.cursor(), 1);
    assert_eq!(
        job.step_succeeded(),
        vec![BatchCommand::Committed(1), BatchCommand::Dispatch(2)]
    );
    assert_eq!(job.cursor(), 2);
    assert_eq!(job.step_succeeded(), vec![BatchCommand::Committed(2), BatchCommand::Finished]);
    assert_eq!(job.cursor(), 3);
    assert_eq!(job.status(), &JobStatus::Done);
    assert_eq!(job.current(), None);
    assert_eq!(job.items(), &names(&["u1", "u2", "u3"]));
    assert_eq!(job.step_succeeded(), vec![]);
    assert_eq!(job.cursor(), 3);
}

#[test]
fn single_item_runs_the_same_pipeline() {
    let (mut job, first) = BatchJob::submit(names(&["only"])).unwrap();
    assert_eq!(first, vec![BatchCommand::Dispatch(0)]);
    assert_eq!(job.step_succeeded(), vec![BatchCommand::Committed(0), BatchCommand::Finished]);
    assert_eq!(job.status(), &JobStatus::Done);
    assert_eq!(job.cursor(), 1);
}

#[test]
fn second_of_two_fails() {
    let (mut job, first) = BatchJob::submit(names(&["u1", "u2"])).unwrap();
    assert_eq!(first, vec![BatchCommand::Dispatch(0)]);
    assert_eq!(
        job.step_succeeded(),
        vec![BatchCommand::Committed(0), BatchCommand::Dispatch(1)]
    );
    job.step_failed(TaskError::Network("refused".to_string()));
    assert_eq!(job.status(), &JobStatus::Failed(TaskError::Network("refused".to_string())));
    assert_eq!(job.cursor(), 1);
    assert_eq!(job.current(), Some(&"u2".to_string()));
    assert!(!job.is_running());
    assert_eq!(job.step_succeeded(), vec![]);
    job.step_failed(TaskError::Network("again".to_string()));
    assert_eq!(job.status(), &JobStatus::Failed(TaskError::Network("refused".to_string())));
    assert_eq!(job.cursor(), 1);
    assert_eq!(job.items(), &names(&["u1", "u2"]));
}

#[test]
fn first_item_fails_with_cursor_at_start() {
    let (mut job, _) = BatchJob::submit(names(&["u1", "u2", "u3"])).unwrap();
    job.step_failed(TaskError::Validation("no".to_string()));
    assert_eq!(job.status(), &JobStatus::Failed(TaskError::Validation("no".to_string())));
    assert_eq!(job.cursor(), 0);
}

#[test]
fn duplicates_are_each_dispatched_and_committed() {
    let (mut job, _) = BatchJob::submit(names(&["u1", "u1"])).unwrap();
    assert_eq!(
        job.step_succeeded(),
        vec![BatchCommand::Committed(0), BatchCommand::Dispatch(1)]
    );
    assert_eq!(job.current(), Some(&"u1".to_string()));
    assert_eq!(job.step_succeeded(), vec![BatchCommand::Committed(1), BatchCommand::Finished]);
}

#[test]
fn n_items_give_n_dispatches_and_n_commits() {
    let n = 25usize;
    let items: Vec<String> = (0..n).map(|i| format!("u{}", i)).collect();
    let (mut job, first) = BatchJob::submit(items).unwrap();
    let mut all = first;
    while job.is_running() {
        all.extend(job.step_succeeded());
    }
    let dispatched: Vec<usize> = all
        .iter()
        .filter_map(|c| match c {
            BatchCommand::Dispatch(at) => Some(*at),
            _ => None,
        })
        .collect();
    let committed: Vec<usize> = all
        .iter()
        .filter_map(|c| match c {
            BatchCommand::Committed(at) => Some(*at),
            _ => None,
        })
        .collect();
    assert_eq!(dispatched, (0..n).collect::<Vec<usize>>());
    assert_eq!(committed, (0..n).collect::<Vec<usize>>());
    assert_eq!(all.len(), 2 * n + 1);
    assert_eq!(all[2 * n], BatchCommand::Finished);
    assert_eq!(job.status(), &JobStatus::Done);
}
