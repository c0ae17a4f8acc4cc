use yt_dl_service::batch::TaskBatch;
use yt_dl_service::runner::TaskError;

#[test]
fn batch_visits_tasks_in_order() {
    let mut batch = TaskBatch::new(3);
    let mut visited = Vec::new();
    while let Some(position) = batch.next_task() {
        visited.push(position);
        assert_eq!(batch.record(Ok(())), None);
    }
    assert_eq!(visited, vec![0, 1, 2]);
    assert_eq!(batch.attempted(), 3);
    assert!(batch.is_complete());
}

#[test]
fn failed_task_does_not_end_the_batch() {
    let mut batch = TaskBatch::new(3);
    assert_eq!(batch.next_task(), Some(0));
    assert_eq!(batch.record(Err(TaskError::Spawn)), Some(TaskError::Spawn));
    assert!(!batch.is_complete());
    assert_eq!(batch.next_task(), Some(1));
    assert_eq!(batch.record(Err(TaskError::Kill)), Some(TaskError::Kill));
    assert_eq!(batch.next_task(), Some(2));
    assert_eq!(batch.record(Ok(())), None);
    assert_eq!(batch.next_task(), None);
    assert_eq!(batch.attempted(), 3);
}

#[test]
fn batch_counts_attempts_whatever_the_outcome() {
    let mut batch = TaskBatch::new(2);
    assert_eq!(batch.total(), 2);
    assert_eq!(batch.attempted(), 0);
    batch.record(Err(TaskError::RemoveTempDir));
    assert_eq!(batch.attempted(), 1);
    batch.record(Ok(()));
    assert_eq!(batch.attempted(), 2);
}

#[test]
fn complete_batch_takes_nothing_more() {
    let mut batch = TaskBatch::new(1);
    assert_eq!(batch.record(Ok(())), None);
    assert_eq!(batch.record(Err(TaskError::Spawn)), None);
    assert_eq!(batch.attempted(), 1);
    assert_eq!(batch.next_task(), None);
}

#[test]
fn empty_batch_is_complete() {
    let batch = TaskBatch::new(0);
    assert_eq!(batch.total(), 0);
    assert!(batch.is_complete());
    assert_eq!(batch.next_task(), None);
    assert_eq!(batch.attempted(), 0);
}
