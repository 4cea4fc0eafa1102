use p3get::{Batch, Completion, DownloadError, TaskStatus};

#[test]
fn fresh_batch_has_everything_waiting() {
    let batch = Batch::new(3, 2);
    assert_eq!(batch.total_count(), 3);
    assert_eq!(batch.completed_count(), 0);
    assert_eq!(batch.in_flight(), 0);
    assert_eq!(batch.parallelism(), 2);
    assert!(!batch.is_finished());
    assert_eq!(batch.status(0), Some(TaskStatus::Waiting));
    assert_eq!(batch.status(2), Some(TaskStatus::Waiting));
    assert_eq!(batch.status(3), None);
}

#[test]
fn empty_batch_is_finished_at_once() {
    let mut batch = Batch::new(0, 4);
    assert!(batch.is_finished());
    assert_eq!(batch.start_next(), None);
    assert_eq!(batch.total_count(), 0);
    assert_eq!(batch.completed_count(), 0);
}

#[test]
fn tasks_start_in_list_order() {
    let mut batch = Batch::new(4, 4);
    assert_eq!(batch.start_next(), Some(0));
    assert_eq!(batch.start_next(), Some(1));
    assert_eq!(batch.start_next(), Some(2));
    assert_eq!(batch.start_next(), Some(3));
    assert_eq!(batch.start_next(), None);
    assert_eq!(batch.in_flight(), 4);
}

#[test]
fn second_of_two_waits_for_the_first_with_one_slot() {
    let mut batch = Batch::new(2, 1);
    assert_eq!(batch.start_next(), Some(0));
    assert_eq!(batch.start_next(), None);
    assert_eq!(batch.status(1), Some(TaskStatus::Waiting));
    assert_eq!(
        batch.complete(0, Ok(())),
        Some(Completion { message: None, position: 1 })
    );
    assert_eq!(batch.start_next(), Some(1));
    assert_eq!(batch.start_next(), None);
    assert_eq!(
        batch.complete(1, Ok(())),
        Some(Completion { message: None, position: 2 })
    );
    assert!(batch.is_finished());
}

#[test]
fn zero_slots_behave_as_one() {
    let mut zero = Batch::new(3, 0);
    let mut one = Batch::new(3, 1);
    assert_eq!(zero.parallelism(), 1);
    assert_eq!(one.parallelism(), 1);
    for expected in 0..3 {
        let a = zero.start_next();
        let b = one.start_next();
        assert_eq!(a, Some(expected));
        assert_eq!(a, b);
        assert_eq!(zero.start_next(), None);
        assert_eq!(one.start_next(), None);
        assert_eq!(zero.complete(expected, Ok(())), one.complete(expected, Ok(())));
    }
    assert!(zero.is_finished());
    assert!(one.is_finished());
}

#[test]
fn never_more_in_flight_than_the_cap() {
    let total = 10;
    for cap in 1..5 {
        let mut batch = Batch::new(total, cap);
        let mut running: Vec<usize> = Vec::new();
        let mut round = 0;
        while !batch.is_finished() {
            while let Some(index) = batch.start_next() {
                running.push(index);
                assert!(batch.in_flight() <= cap);
            }
            assert_eq!(batch.in_flight(), running.len());
            assert!(running.len() <= cap);
            let pick = (round * 7 + 3) % running.len();
            let index = running.remove(pick);
            let outcome = if index % 3 == 0 {
                Err(DownloadError::Stream(String::from("broken")))
            } else {
                Ok(())
            };
            assert!(batch.complete(index, outcome).is_some());
            round += 1;
        }
        assert_eq!(batch.completed_count(), total as u64);
        assert_eq!(batch.in_flight(), 0);
    }
}

#[test]
fn completed_count_equals_total_whatever_failed() {
    let mut batch = Batch::new(3, 3);
    while batch.start_next().is_some() {}
    assert_eq!(
        batch.complete(1, Err(DownloadError::MissingLength)),
        Some(Completion {
            message: Some(String::from("Failed to get file length")),
            position: 1,
        })
    );
    assert_eq!(
        batch.complete(0, Err(DownloadError::Request(String::from("unreachable host")))),
        Some(Completion { message: Some(String::from("unreachable host")), position: 2 })
    );
    assert!(!batch.is_finished());
    assert_eq!(
        batch.complete(2, Err(DownloadError::InvalidDestination)),
        Some(Completion { message: Some(String::from("Invalid filename")), position: 3 })
    );
    assert!(batch.is_finished());
    assert_eq!(batch.completed_count(), 3);
    assert_eq!(batch.total_count(), 3);
    assert_eq!(batch.status(0), Some(TaskStatus::Failed));
    assert_eq!(batch.status(1), Some(TaskStatus::Failed));
    assert_eq!(batch.status(2), Some(TaskStatus::Failed));
}

#[test]
fn one_failure_does_not_stop_the_siblings() {
    let mut batch = Batch::new(3, 2);
    assert_eq!(batch.start_next(), Some(0));
    assert_eq!(batch.start_next(), Some(1));
    let report = batch.complete(0, Err(DownloadError::Request(String::from("unreachable"))));
    assert_eq!(
        report,
        Some(Completion { message: Some(String::from("unreachable")), position: 1 })
    );
    assert_eq!(batch.status(0), Some(TaskStatus::Failed));
    assert_eq!(batch.status(1), Some(TaskStatus::Running));
    assert_eq!(batch.start_next(), Some(2));
    assert_eq!(batch.complete(1, Ok(())), Some(Completion { message: None, position: 2 }));
    assert_eq!(batch.complete(2, Ok(())), Some(Completion { message: None, position: 3 }));
    assert_eq!(batch.status(1), Some(TaskStatus::Succeeded));
    assert_eq!(batch.status(2), Some(TaskStatus::Succeeded));
    assert!(batch.is_finished());
}

#[test]
fn a_task_is_counted_once() {
    let mut batch = Batch::new(2, 2);
    assert_eq!(batch.start_next(), Some(0));
    assert!(batch.complete(0, Ok(())).is_some());
    assert_eq!(batch.complete(0, Ok(())), None);
    assert_eq!(batch.complete(0, Err(DownloadError::MissingLength)), None);
    assert_eq!(batch.completed_count(), 1);
    assert_eq!(batch.status(0), Some(TaskStatus::Succeeded));
}

#[test]
fn reports_for_tasks_not_running_are_ignored() {
    let mut batch = Batch::new(2, 1);
    assert_eq!(batch.complete(0, Ok(())), None);
    assert_eq!(batch.start_next(), Some(0));
    assert_eq!(batch.complete(1, Ok(())), None);
    assert_eq!(batch.complete(2, Ok(())), None);
    assert_eq!(batch.complete(usize::MAX, Ok(())), None);
    assert_eq!(batch.completed_count(), 0);
    assert_eq!(batch.in_flight(), 1);
    assert_eq!(batch.status(1), Some(TaskStatus::Waiting));
}

#[test]
fn a_freed_slot_goes_to_the_next_in_line() {
    let mut batch = Batch::new(5, 2);
    assert_eq!(batch.start_next(), Some(0));
    assert_eq!(batch.start_next(), Some(1));
    assert_eq!(batch.start_next(), None);
    assert!(batch.complete(1, Ok(())).is_some());
    assert_eq!(batch.start_next(), Some(2));
    assert_eq!(batch.start_next(), None);
    assert!(batch.complete(2, Ok(())).is_some());
    assert_eq!(batch.start_next(), Some(3));
    assert_eq!(batch.in_flight(), 2);
    assert_eq!(batch.completed_count(), 2);
}
