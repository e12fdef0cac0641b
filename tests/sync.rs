use rusty_pet::cache::{CacheKey, CacheStore};
use rusty_pet::errors::{CliError, RemoteFailure};
use rusty_pet::queue::{
    DeviceCommand, OperationQueue, OperationResult, PetLocationUpdate, QueuedOperation,
};
use rusty_pet::sync::{
    cached_read, classify, failed_device_commands, failed_pet_updates, fallback_read,
    needs_reconciliation, probe_says_reachable, queue_status, replay_outcome,
    settle_batch_device_control, settle_batch_pet_locations, settle_write, synchronize_when_online,
    BatchFailure, BatchResult, FailureClass, WriteStatus,
};

const LOCATION_INSIDE: u32 = 1;
const LOCK_STATE_LOCKED: u32 = 1;

fn failure(timeout: bool, status: Option<u16>) -> RemoteFailure {
    RemoteFailure { timeout, connect: false, request: false, status, message: "boom".to_string() }
}

#[test]
fn test_queue_status() {
    let queue = OperationQueue::new("queue.json".to_string());
    let (count, descriptions) = queue_status(&queue);
    assert_eq!(count, 0);
    assert!(descriptions.is_empty());
}

#[test]
fn test_clear_all() {
    let mut queue = OperationQueue::new("queue.json".to_string());
    let mut store: CacheStore<u8> = CacheStore::new(24 * 3600);
    store.purge_all();
    queue.clear();
    assert!(queue.is_empty());
    assert_eq!(store.len(), 0);
}

#[test]
fn scenario_mixed_outcomes_keep_the_device_operation() {
    let mut queue = OperationQueue::new("queue.json".to_string());
    queue.enqueue(QueuedOperation::SetPetLocation { pet_id: 1, location: LOCATION_INSIDE });
    queue.enqueue(QueuedOperation::SetDeviceLockState { device_id: 5, lock_state: LOCK_STATE_LOCKED });
    let executor = |op: &QueuedOperation| match op {
        QueuedOperation::SetPetLocation { .. } => OperationResult::Success,
        _ => OperationResult::Retry("timeout".to_string()),
    };
    let r = queue.synchronize(executor);
    assert_eq!((r.successful, r.retried, r.failed), (1, 1, 0));
    assert_eq!(queue.size(), 1);
    let e = &queue.get_all()[0];
    assert_eq!(e.retry_count, 1);
    assert!(matches!(e.operation, QueuedOperation::SetDeviceLockState { device_id: 5, .. }));
}

#[test]
fn scenario_clear_then_empty() {
    let mut queue = OperationQueue::new("queue.json".to_string());
    queue.enqueue(QueuedOperation::SetPetLocation { pet_id: 1, location: 2 });
    queue.clear();
    assert!(queue.is_empty());
    queue.clear();
    assert!(queue.is_empty());
}

#[test]
fn classification_of_remote_failures() {
    assert_eq!(classify(&failure(true, None)), FailureClass::Transient);
    assert_eq!(classify(&failure(false, Some(502))), FailureClass::Transient);
    assert_eq!(classify(&failure(false, Some(401))), FailureClass::Authorization);
    assert_eq!(classify(&failure(false, Some(403))), FailureClass::Authorization);
    assert_eq!(classify(&failure(false, Some(422))), FailureClass::Permanent);
    assert_eq!(classify(&failure(false, None)), FailureClass::Permanent);
    let mut f = failure(false, None);
    f.connect = true;
    assert_eq!(classify(&f), FailureClass::Transient);
}

#[test]
fn replay_outcomes_carry_the_message() {
    assert!(matches!(replay_outcome(&Ok(())), OperationResult::Success));
    match replay_outcome(&Err(failure(true, None))) {
        OperationResult::Retry(m) => assert_eq!(m, "Network error: boom"),
        _ => panic!("expected a retry"),
    }
    match replay_outcome(&Err(failure(false, Some(400)))) {
        OperationResult::Fail(m) => assert_eq!(m, "Permanent error: boom"),
        _ => panic!("expected a failure"),
    }
}

#[test]
fn read_path_prefers_fresh_cache_then_falls_back() {
    let mut store = CacheStore::new(60);
    let now = 1_000;
    assert!(cached_read(&store, &CacheKey::Pets, false, now).is_none());
    let err = fallback_read(&store, &CacheKey::Pets, &failure(true, None), "pets").unwrap_err();
    assert_eq!(
        err.display_text(),
        "Network error: Failed to get pets and no cached data available: boom"
    );
    store.put_at(CacheKey::Pets, "cats", now);
    assert_eq!(cached_read(&store, &CacheKey::Pets, false, now + 10).unwrap().data, "cats");
    assert!(cached_read(&store, &CacheKey::Pets, true, now + 10).is_none());
    assert!(cached_read(&store, &CacheKey::Pets, false, now + 61).is_none());
    let stale = fallback_read(&store, &CacheKey::Pets, &failure(true, None), "pets").unwrap();
    assert_eq!(stale.data, "cats");
}

#[test]
fn write_path_queues_only_transient_failures() {
    let mut queue = OperationQueue::new("queue.json".to_string());
    let op = || QueuedOperation::SetPetLocation { pet_id: 4, location: 2 };
    let r = settle_write(&mut queue, op(), &Ok(()), "set pet location");
    assert!(matches!(r, Ok(WriteStatus::Applied)));
    assert!(queue.is_empty());

    let r = settle_write(&mut queue, op(), &Err(failure(true, None)), "set pet location");
    match r {
        Ok(WriteStatus::Deferred(id)) => assert_eq!(queue.get_all()[0].id, id),
        _ => panic!("expected a deferred write"),
    }
    assert_eq!(queue.size(), 1);

    let r = settle_write(&mut queue, op(), &Err(failure(false, Some(401))), "set pet location");
    match r {
        Err(e) => {
            assert!(matches!(e, CliError::Network { retry_possible: false, .. }));
            assert_eq!(e.display_text(), "Network error: Failed to set pet location: boom");
        }
        _ => panic!("expected an error"),
    }
    assert_eq!(queue.size(), 1);
}

#[test]
fn batch_requeues_only_failed_items() {
    let mut queue = OperationQueue::new("queue.json".to_string());
    let updates = vec![
        PetLocationUpdate { pet_id: 1, location: 1 },
        PetLocationUpdate { pet_id: 2, location: 2 },
        PetLocationUpdate { pet_id: 3, location: 1 },
    ];
    let result = BatchResult {
        successful: vec![2],
        failed: vec![
            BatchFailure { id: 3, error: "x".to_string() },
            BatchFailure { id: 1, error: "y".to_string() },
            BatchFailure { id: 9, error: "z".to_string() },
        ],
    };
    let picked = failed_pet_updates(&updates, &result.failed);
    assert_eq!(picked.iter().map(|u| u.pet_id).collect::<Vec<_>>(), vec![3, 1]);
    let r = settle_batch_pet_locations(&mut queue, updates.clone(), &Ok(result));
    assert!(matches!(r, Ok(WriteStatus::Deferred(_))));
    match &queue.get_all()[0].operation {
        QueuedOperation::BatchSetPetLocations { updates } => {
            assert_eq!(updates.iter().map(|u| u.pet_id).collect::<Vec<_>>(), vec![3, 1])
        }
        _ => panic!("expected a batch"),
    }

    let all_ok = BatchResult { successful: vec![1, 2, 3], failed: vec![] };
    let r = settle_batch_pet_locations(&mut queue, updates.clone(), &Ok(all_ok));
    assert!(matches!(r, Ok(WriteStatus::Applied)));
    assert_eq!(queue.size(), 1);

    let r = settle_batch_pet_locations(&mut queue, updates, &Err(failure(false, Some(400))));
    assert!(r.is_err());
    assert_eq!(queue.size(), 1);
}

#[test]
fn device_batch_requeues_whole_batch_on_transient_failure() {
    let mut queue = OperationQueue::new("queue.json".to_string());
    let commands = vec![DeviceCommand { device_id: 5, lock_state: 1 }, DeviceCommand { device_id: 6, lock_state: 0 }];
    let r = settle_batch_device_control(&mut queue, commands.clone(), &Err(failure(true, None)));
    assert!(matches!(r, Ok(WriteStatus::Deferred(_))));
    match &queue.get_all()[0].operation {
        QueuedOperation::BatchDeviceControl { commands } => assert_eq!(commands.len(), 2),
        _ => panic!("expected a batch"),
    }
    let failed = vec![BatchFailure { id: 6, error: "e".to_string() }];
    let picked = failed_device_commands(&commands, &failed);
    assert_eq!(picked.len(), 1);
    assert_eq!(picked[0].device_id, 6);
}

#[test]
fn reconciliation_is_gated_on_queue_and_connectivity() {
    let mut queue = OperationQueue::new("queue.json".to_string());
    assert!(!needs_reconciliation(&queue));
    assert!(synchronize_when_online(&mut queue, true, &vec![]).is_none());
    queue.enqueue(QueuedOperation::SetPetLocation { pet_id: 1, location: 1 });
    assert!(needs_reconciliation(&queue));
    assert!(synchronize_when_online(&mut queue, false, &vec![]).is_none());
    assert_eq!(queue.size(), 1);
    let r = synchronize_when_online(&mut queue, true, &vec![OperationResult::Success]).unwrap();
    assert_eq!((r.total_operations, r.successful), (1, 1));
    assert!(queue.is_empty());
}

#[test]
fn probe_statuses() {
    assert!(probe_says_reachable(Some(200)));
    assert!(probe_says_reachable(Some(404)));
    assert!(!probe_says_reachable(Some(503)));
    assert!(!probe_says_reachable(None));
}

#[test]
fn status_lists_each_queued_operation() {
    let mut queue = OperationQueue::new("queue.json".to_string());
    queue.enqueue(QueuedOperation::SetPetLocation { pet_id: 3, location: 1 });
    queue.enqueue(QueuedOperation::SetDeviceLockState { device_id: 8, lock_state: 2 });
    let (count, descriptions) = queue_status(&queue);
    assert_eq!(count, 2);
    assert_eq!(descriptions, vec!["Set pet 3 location to 1".to_string(), "Set device 8 lock state to 2".to_string()]);
}
