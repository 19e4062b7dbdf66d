use wg_gesucht_updater::error::{FailedUpdates, Failure, Kind};
use wg_gesucht_updater::pipeline::{Pipeline, Task};

fn task(kind: Kind, id: u32, deactivated: bool) -> Option<Task> {
    Some(Task { kind, id, deactivated })
}

fn failures(result: Result<(), FailedUpdates>) -> FailedUpdates {
    match result {
        Err(failed) => failed,
        Ok(()) => panic!("the run has not failed"),
    }
}

#[test]
fn a_pipeline_without_offers_is_done_at_once() {
    let pipeline = Pipeline::new(&vec![], &vec![], &vec![]);
    assert!(pipeline.is_done());
    assert_eq!(pipeline.pending(), None);
    assert!(pipeline.failed().is_empty());
    assert!(pipeline.into_result().is_ok());
}

#[test]
fn deactivations_come_before_activations_and_bumps_last() {
    let mut pipeline = Pipeline::new(&vec![1, 2], &vec![3, 4], &vec![5]);
    let mut tasks = Vec::new();
    while let Some(task) = pipeline.pending() {
        tasks.push((task.kind, task.id, task.deactivated));
        pipeline.record(Ok(()));
    }
    assert_eq!(
        tasks,
        vec![
            (Kind::Deactivate, 1, true),
            (Kind::Deactivate, 2, true),
            (Kind::Activate, 3, false),
            (Kind::Activate, 4, false),
            (Kind::Bump, 5, true),
            (Kind::Bump, 5, false),
        ]
    );
    assert!(pipeline.is_done());
    assert!(pipeline.into_result().is_ok());
}

#[test]
fn a_failure_is_recorded_and_the_next_offer_is_due() {
    let mut pipeline = Pipeline::new(&vec![1, 2, 3], &vec![], &vec![]);
    pipeline.record(Ok(()));
    assert_eq!(pipeline.pending(), task(Kind::Deactivate, 2, true));
    pipeline.record(Err(Failure::Status(404)));
    assert_eq!(pipeline.pending(), task(Kind::Deactivate, 3, true));
    assert_eq!(pipeline.failed().count(Kind::Deactivate), 1);
    assert_eq!(pipeline.failed().get(Kind::Deactivate, 2), Some(&Failure::Status(404)));
    pipeline.record(Ok(()));
    assert!(pipeline.is_done());
    let failed = failures(pipeline.into_result());
    assert_eq!(failed.count(Kind::Deactivate), 1);
    assert_eq!(failed.count(Kind::Activate), 0);
    assert_eq!(failed.count(Kind::Bump), 0);
}

#[test]
fn every_failure_is_kept() {
    let mut pipeline = Pipeline::new(&vec![1], &vec![2], &vec![3]);
    pipeline.record(Err(Failure::Status(500)));
    pipeline.record(Err(Failure::Transport("timed out".to_string())));
    pipeline.record(Err(Failure::Status(403)));
    assert!(pipeline.is_done());
    let failed = failures(pipeline.into_result());
    assert_eq!(failed.get(Kind::Deactivate, 1), Some(&Failure::Status(500)));
    assert_eq!(failed.get(Kind::Activate, 2), Some(&Failure::Transport("timed out".to_string())));
    assert_eq!(failed.get(Kind::Bump, 3), Some(&Failure::Status(403)));
}

#[test]
fn bump_of_101_with_a_failing_activation_is_a_failed_bump() {
    let mut pipeline = Pipeline::new(&vec![], &vec![], &vec![101]);
    assert_eq!(pipeline.pending(), task(Kind::Bump, 101, true));
    pipeline.record(Ok(()));
    assert_eq!(pipeline.pending(), task(Kind::Bump, 101, false));
    pipeline.record(Err(Failure::Status(500)));
    assert_eq!(pipeline.pending(), None);
    let failed = failures(pipeline.into_result());
    assert_eq!(failed.get(Kind::Bump, 101), Some(&Failure::Status(500)));
    assert_eq!(failed.count(Kind::Bump), 1);
    assert_eq!(failed.count(Kind::Activate), 0);
    assert_eq!(failed.count(Kind::Deactivate), 0);
}

#[test]
fn activate_5_and_6_with_6_failing_reports_6_only() {
    let mut pipeline = Pipeline::new(&vec![], &vec![5, 6], &vec![]);
    let mut attempts = 0;
    assert_eq!(pipeline.pending(), task(Kind::Activate, 5, false));
    pipeline.record(Ok(()));
    attempts += 1;
    assert_eq!(pipeline.pending(), task(Kind::Activate, 6, false));
    pipeline.record(Err(Failure::Status(500)));
    attempts += 1;
    assert_eq!(pipeline.pending(), None);
    assert_eq!(attempts, 2);
    let failed = failures(pipeline.into_result());
    assert_eq!(failed.count(Kind::Activate), 1);
    assert_eq!(failed.get(Kind::Activate, 5), None);
    assert_eq!(failed.get(Kind::Activate, 6), Some(&Failure::Status(500)));
    assert_eq!(failed.count(Kind::Deactivate), 0);
    assert_eq!(failed.count(Kind::Bump), 0);
}

#[test]
fn a_bump_whose_deactivation_fails_never_activates() {
    let mut pipeline = Pipeline::new(&vec![], &vec![], &vec![7, 8]);
    assert_eq!(pipeline.pending(), task(Kind::Bump, 7, true));
    pipeline.record(Err(Failure::Status(403)));
    assert_eq!(pipeline.pending(), task(Kind::Bump, 8, true));
    pipeline.record(Ok(()));
    assert_eq!(pipeline.pending(), task(Kind::Bump, 8, false));
    pipeline.record(Ok(()));
    assert!(pipeline.is_done());
    let failed = failures(pipeline.into_result());
    assert_eq!(failed.count(Kind::Bump), 1);
    assert_eq!(failed.get(Kind::Bump, 7), Some(&Failure::Status(403)));
}

#[test]
fn the_same_offer_twice_is_two_requests() {
    let mut pipeline = Pipeline::new(&vec![9, 9], &vec![], &vec![]);
    assert_eq!(pipeline.pending(), task(Kind::Deactivate, 9, true));
    pipeline.record(Ok(()));
    assert_eq!(pipeline.pending(), task(Kind::Deactivate, 9, true));
    pipeline.record(Ok(()));
    assert!(pipeline.is_done());
    assert!(pipeline.into_result().is_ok());
}

#[test]
fn the_same_offer_in_all_three_lists_is_handled_in_each() {
    let mut pipeline = Pipeline::new(&vec![1], &vec![1], &vec![1]);
    pipeline.record(Err(Failure::Status(500)));
    pipeline.record(Ok(()));
    pipeline.record(Ok(()));
    pipeline.record(Err(Failure::Status(501)));
    assert!(pipeline.is_done());
    let failed = failures(pipeline.into_result());
    assert_eq!(failed.get(Kind::Deactivate, 1), Some(&Failure::Status(500)));
    assert_eq!(failed.get(Kind::Activate, 1), None);
    assert_eq!(failed.get(Kind::Bump, 1), Some(&Failure::Status(501)));
}

#[test]
fn of_two_failures_of_one_offer_the_last_is_kept() {
    let mut pipeline = Pipeline::new(&vec![], &vec![4, 4], &vec![]);
    pipeline.record(Err(Failure::Status(500)));
    pipeline.record(Err(Failure::Status(503)));
    let failed = failures(pipeline.into_result());
    assert_eq!(failed.count(Kind::Activate), 1);
    assert_eq!(failed.get(Kind::Activate, 4), Some(&Failure::Status(503)));
}

#[test]
fn a_failure_followed_by_a_success_of_the_same_offer_stays() {
    let mut pipeline = Pipeline::new(&vec![4, 4], &vec![], &vec![]);
    pipeline.record(Err(Failure::Status(500)));
    pipeline.record(Ok(()));
    let failed = failures(pipeline.into_result());
    assert_eq!(failed.get(Kind::Deactivate, 4), Some(&Failure::Status(500)));
}

#[test]
fn record_changes_nothing_once_the_run_is_over() {
    let mut pipeline = Pipeline::new(&vec![1], &vec![], &vec![]);
    pipeline.record(Ok(()));
    assert!(pipeline.is_done());
    pipeline.record(Err(Failure::Status(500)));
    assert!(pipeline.is_done());
    assert!(pipeline.failed().is_empty());
    assert!(pipeline.into_result().is_ok());
}

#[test]
fn failed_updates_start_empty_and_keep_each_kind_apart() {
    let mut failed = FailedUpdates::new();
    assert!(failed.is_empty());
    assert!(FailedUpdates::default().is_empty());
    failed.record(Kind::Bump, 3, Failure::Decode);
    assert!(!failed.is_empty());
    assert_eq!(failed.get(Kind::Bump, 3), Some(&Failure::Decode));
    assert_eq!(failed.get(Kind::Activate, 3), None);
    assert_eq!(failed.get(Kind::Deactivate, 3), None);
    assert_eq!(failed.count(Kind::Bump), 1);
    failed.record(Kind::Bump, 3, Failure::InvalidUrl);
    assert_eq!(failed.count(Kind::Bump), 1);
    assert_eq!(failed.get(Kind::Bump, 3), Some(&Failure::InvalidUrl));
    failed.record(Kind::Activate, 3, Failure::Status(1));
    failed.record(Kind::Deactivate, 2, Failure::Status(2));
    assert_eq!(failed.count(Kind::Activate), 1);
    assert_eq!(failed.count(Kind::Deactivate), 1);
    assert_eq!(failed.count(Kind::Bump), 1);
}
