use hetu::cloudsrv::state::tasks::{TaskKey, TaskStatus, TaskTable};
use hetu::error::HetuError;
use hetu::registration::ExecutorRegistration;

fn key(job: &str, stage: u32, partition: u32) -> TaskKey {
    TaskKey {
        job_id: job.to_string(),
        stage_id: stage,
        partition_id: partition,
    }
}

fn executor(id: &str, slots: u32) -> ExecutorRegistration {
    ExecutorRegistration {
        id: id.to_string(),
        host: None,
        port: 50051,
        grpc_port: 50052,
        task_slots: slots,
    }
}

fn not_queued() -> HetuError {
    HetuError::Internal("task is not queued".to_string())
}

#[test]
fn task_goes_from_queued_to_running_to_completed() {
    let mut table = TaskTable::new();
    let k = key("job", 1, 0);
    assert_eq!(table.status(&k), None);
    assert_eq!(table.submit(k.clone()), Ok(()));
    assert_eq!(table.status(&k), Some(TaskStatus::Queued));
    assert_eq!(table.claim(&k, "e1"), Ok(()));
    assert_eq!(table.status(&k), Some(TaskStatus::Running));
    assert_eq!(table.finish(&k, "e1", false), Ok(()));
    assert_eq!(table.status(&k), Some(TaskStatus::Completed));
}

#[test]
fn second_claim_of_a_task_is_refused() {
    let mut table = TaskTable::new();
    let k = key("job", 1, 0);
    table.submit(k.clone()).unwrap();
    assert_eq!(table.claim(&k, "e1"), Ok(()));
    assert_eq!(table.claim(&k, "e2"), Err(not_queued()));
    assert_eq!(table.claim(&k, "e1"), Err(not_queued()));
    assert_eq!(table.count_running_on("e1"), 1);
    assert_eq!(table.count_running_on("e2"), 0);
    // The second claimant cannot end the run of the first either.
    assert_eq!(
        table.finish(&k, "e2", true),
        Err(HetuError::Internal(
            "task does not run on this executor".to_string()
        ))
    );
    assert_eq!(table.status(&k), Some(TaskStatus::Running));
}

#[test]
fn terminal_task_is_never_claimed_again() {
    let mut table = TaskTable::new();
    let k = key("job", 2, 7);
    table.submit(k.clone()).unwrap();
    table.claim(&k, "e1").unwrap();
    assert_eq!(table.finish(&k, "e1", true), Ok(()));
    assert_eq!(table.status(&k), Some(TaskStatus::Failed));
    assert_eq!(table.claim(&k, "e1"), Err(not_queued()));
    assert_eq!(
        table.finish(&k, "e1", false),
        Err(HetuError::Internal(
            "task does not run on this executor".to_string()
        ))
    );
    assert_eq!(table.status(&k), Some(TaskStatus::Failed));
    assert_eq!(table.poll_work("e1"), None);
}

#[test]
fn unknown_task_is_refused() {
    let mut table = TaskTable::new();
    assert_eq!(table.claim(&key("nope", 0, 0), "e1"), Err(not_queued()));
    assert_eq!(table.len(), 0);
}

#[test]
fn task_is_submitted_once() {
    let mut table = TaskTable::new();
    assert_eq!(table.submit(key("job", 1, 0)), Ok(()));
    assert_eq!(
        table.submit(key("job", 1, 0)),
        Err(HetuError::Internal("task already submitted".to_string()))
    );
    assert_eq!(table.submit(key("job", 1, 1)), Ok(()));
    assert_eq!(table.submit(key("job", 2, 0)), Ok(()));
    assert_eq!(table.submit(key("job2", 1, 0)), Ok(()));
    assert_eq!(table.len(), 4);
}

#[test]
fn poll_hands_out_tasks_in_the_order_of_submission() {
    let mut table = TaskTable::new();
    table.submit(key("a", 1, 0)).unwrap();
    table.submit(key("a", 1, 1)).unwrap();
    table.submit(key("b", 1, 0)).unwrap();
    table.claim(&key("a", 1, 1), "e9").unwrap();
    assert_eq!(table.poll_work("e1"), Some(key("a", 1, 0)));
    assert_eq!(table.poll_work("e2"), Some(key("b", 1, 0)));
    assert_eq!(table.poll_work("e1"), None);
    assert_eq!(table.count_running_on("e1"), 1);
    assert_eq!(table.count_running_on("e2"), 1);
    assert_eq!(table.count_running_on("e9"), 1);
}

#[test]
fn push_respects_the_task_slots() {
    let mut table = TaskTable::new();
    for partition in 0..4 {
        table.submit(key("job", 1, partition)).unwrap();
    }
    let two = executor("e1", 2);
    assert_eq!(table.offer_work(&two), Some(key("job", 1, 0)));
    assert_eq!(table.offer_work(&two), Some(key("job", 1, 1)));
    assert_eq!(table.offer_work(&two), None);
    assert_eq!(table.status(&key("job", 1, 2)), Some(TaskStatus::Queued));
    table.finish(&key("job", 1, 0), "e1", false).unwrap();
    assert_eq!(table.offer_work(&two), Some(key("job", 1, 2)));
    assert_eq!(table.offer_work(&executor("idle", 0)), None);
    assert_eq!(table.offer_work(&executor("e2", 1)), Some(key("job", 1, 3)));
    assert_eq!(table.offer_work(&executor("e3", 1)), None);
}

#[test]
fn both_policies_leave_one_run_per_task() {
    let mut table = TaskTable::new();
    table.submit(key("job", 1, 0)).unwrap();
    let pushed = table.offer_work(&executor("e1", 4));
    let pulled = table.poll_work("e2");
    assert_eq!(pushed, Some(key("job", 1, 0)));
    assert_eq!(pulled, None);
    assert_eq!(table.count_running_on("e1") + table.count_running_on("e2"), 1);
}
