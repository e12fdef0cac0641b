use rusty_pet::queue::{
    DeviceCommand, PetLocationUpdate, OperationQueue, OperationResult, QueuedOperation, QueuedOperationEntry, DEFAULT_MAX_RETRIES,
};

const LOCATION_INSIDE: u32 = 1;
const LOCK_STATE_LOCKED: u32 = 1;

fn new_queue() -> OperationQueue {
    OperationQueue::new("test_queue.json".to_string())
}

#[test]
fn test_operation_queue_creation() {
    let queue = new_queue();
    assert!(queue.is_empty());
    assert_eq!(queue.size(), 0);
}

#[test]
fn test_enqueue_operation() {
    let mut queue = new_queue();
    let operation = QueuedOperation::SetPetLocation { pet_id: 1, location: LOCATION_INSIDE };

    let operation_id = queue.enqueue(operation);
    assert!(!operation_id.is_empty());
    assert_eq!(queue.size(), 1);
    assert!(!queue.is_empty());
}

#[test]
fn test_queue_persistence() {
    // The queue document carried over to a new queue value for the same file.
    let document = {
        let mut queue = new_queue();
        let operation =
            QueuedOperation::SetDeviceLockState { device_id: 1, lock_state: LOCK_STATE_LOCKED };
        queue.enqueue(operation);
        queue.get_all().clone()
    };

    let queue = OperationQueue::from_entries("test_queue.json".to_string(), document, DEFAULT_MAX_RETRIES);
    assert_eq!(queue.size(), 1);

    let operations = queue.get_all();
    assert_eq!(operations.len(), 1);

    match &operations[0].operation {
        QueuedOperation::SetDeviceLockState { device_id, lock_state } => {
            assert_eq!(*device_id, 1);
            assert_eq!(*lock_state, LOCK_STATE_LOCKED);
        }
        _ => panic!("Expected SetDeviceLockState operation"),
    }
}

#[test]
fn test_remove_operation() {
    let mut queue = new_queue();
    let operation = QueuedOperation::SetPetLocation { pet_id: 1, location: LOCATION_INSIDE };

    let operation_id = queue.enqueue(operation);
    assert_eq!(queue.size(), 1);

    let removed = queue.remove(&operation_id);
    assert!(removed);
    assert_eq!(queue.size(), 0);

    let removed = queue.remove("non-existent");
    assert!(!removed);
}

#[test]
fn test_clear_queue() {
    let mut queue = new_queue();
    for i in 1..=3 {
        let operation = QueuedOperation::SetPetLocation { pet_id: i, location: LOCATION_INSIDE };
        queue.enqueue(operation);
    }

    assert_eq!(queue.size(), 3);

    queue.clear();
    assert_eq!(queue.size(), 0);
    assert!(queue.is_empty());
}

#[test]
fn test_synchronize_operations() {
    let mut queue = new_queue();
    queue.enqueue(QueuedOperation::SetPetLocation { pet_id: 1, location: LOCATION_INSIDE });
    queue.enqueue(QueuedOperation::SetPetLocation { pet_id: 2, location: LOCATION_INSIDE });

    let executor = |_operation: &QueuedOperation| OperationResult::Success;

    let result = queue.synchronize(executor);

    assert_eq!(result.total_operations, 2);
    assert_eq!(result.successful, 2);
    assert_eq!(result.failed, 0);
    assert_eq!(result.retried, 0);

    assert!(queue.is_empty());
}

#[test]
fn test_retry_logic() {
    let mut queue = new_queue();
    queue.enqueue(QueuedOperation::SetPetLocation { pet_id: 1, location: LOCATION_INSIDE });

    let executor = |_operation: &QueuedOperation| OperationResult::Retry("Network error".to_string());

    let result = queue.synchronize(executor);

    assert_eq!(result.total_operations, 1);
    assert_eq!(result.successful, 0);
    assert_eq!(result.failed, 0);
    assert_eq!(result.retried, 1);

    assert_eq!(queue.size(), 1);

    let operations = queue.get_all();
    assert_eq!(operations[0].retry_count, 1);
}

#[test]
fn enqueue_keeps_order_and_count() {
    let mut queue = new_queue();
    let mut ids = Vec::new();
    for i in 0..5u32 {
        ids.push(queue.enqueue(QueuedOperation::SetPetLocation { pet_id: i, location: 2 }));
    }
    assert_eq!(queue.size(), 5);
    for (i, e) in queue.get_all().iter().enumerate() {
        assert_eq!(e.id, ids[i]);
        assert_eq!(e.retry_count, 0);
        assert_eq!(e.max_retries, DEFAULT_MAX_RETRIES);
        match e.operation {
            QueuedOperation::SetPetLocation { pet_id, .. } => assert_eq!(pet_id, i as u32),
            _ => panic!("unexpected operation"),
        }
    }
    assert_eq!(ids[0].len(), 36);
    assert_ne!(ids[0], ids[1]);
}

#[test]
fn all_success_pass_empties_queue() {
    let mut queue = new_queue();
    for i in 0..4u32 {
        queue.enqueue(QueuedOperation::SetDeviceLockState { device_id: i, lock_state: 0 });
    }
    let result = queue.synchronize(|_op: &QueuedOperation| OperationResult::Success);
    assert_eq!((result.total_operations, result.successful, result.failed, result.retried), (4, 4, 0, 0));
    assert_eq!(queue.size(), 0);
}

#[test]
fn transient_failures_exhaust_the_retry_bound() {
    let mut queue = new_queue();
    queue.enqueue(QueuedOperation::SetPetLocation { pet_id: 9, location: 1 });
    let transient = |_op: &QueuedOperation| OperationResult::Retry("timeout".to_string());
    for round in 1..=DEFAULT_MAX_RETRIES {
        let r = queue.synchronize(transient);
        assert_eq!((r.retried, r.failed), (1, 0));
        assert_eq!(queue.get_all()[0].retry_count, round);
    }
    let r = queue.synchronize(transient);
    assert_eq!((r.total_operations, r.successful, r.failed, r.retried), (1, 0, 1, 0));
    assert!(queue.is_empty());
}

#[test]
fn permanent_failure_drops_at_once() {
    let mut queue = new_queue();
    queue.enqueue(QueuedOperation::SetPetLocation { pet_id: 3, location: 1 });
    let r = queue.synchronize(|_op: &QueuedOperation| OperationResult::Fail("invalid".to_string()));
    assert_eq!((r.total_operations, r.successful, r.failed, r.retried), (1, 0, 1, 0));
    assert!(queue.is_empty());
}

#[test]
fn outcomes_keep_relative_order_of_retried_entries() {
    let mut queue = OperationQueue::new("q.json".to_string());
    for (i, id) in ["a", "b", "c", "d"].iter().enumerate() {
        queue.enqueue_entry(
            QueuedOperation::SetPetLocation { pet_id: i as u32, location: 1 },
            id.to_string(),
            100,
        );
    }
    let outcomes = vec![
        OperationResult::Retry("t".to_string()),
        OperationResult::Success,
        OperationResult::Retry("t".to_string()),
        OperationResult::Fail("p".to_string()),
    ];
    let r = queue.synchronize_with_outcomes(&outcomes);
    assert_eq!((r.total_operations, r.successful, r.failed, r.retried), (4, 1, 1, 2));
    let ids: Vec<&str> = queue.get_all().iter().map(|e| e.id.as_str()).collect();
    assert_eq!(ids, vec!["a", "c"]);
    assert!(queue.get_all().iter().all(|e| e.retry_count == 1 && e.queued_at == 100));
}

#[test]
fn remove_drops_every_entry_with_the_id() {
    let mut queue = new_queue();
    queue.enqueue_entry(QueuedOperation::SetPetLocation { pet_id: 1, location: 1 }, "x".to_string(), 0);
    queue.enqueue_entry(QueuedOperation::SetPetLocation { pet_id: 2, location: 1 }, "y".to_string(), 0);
    queue.enqueue_entry(QueuedOperation::SetPetLocation { pet_id: 3, location: 1 }, "x".to_string(), 0);
    assert!(queue.remove("x"));
    assert_eq!(queue.size(), 1);
    assert_eq!(queue.get_all()[0].id, "y");
}

#[test]
fn entry_retry_helpers() {
    let mut e = QueuedOperationEntry::new(
        QueuedOperation::BatchSetPetLocations { updates: vec![] },
        "id".to_string(),
        5,
        1,
    );
    assert!(e.can_retry());
    e.increment_retry();
    assert_eq!(e.retry_count, 1);
    assert!(!e.can_retry());
}

#[test]
fn operation_descriptions() {
    let op = QueuedOperation::SetPetLocation { pet_id: 12, location: 2 };
    assert_eq!(op.description(), "Set pet 12 location to 2");
    let op = QueuedOperation::SetDeviceLockState { device_id: 5, lock_state: 1 };
    assert_eq!(op.description(), "Set device 5 lock state to 1");
    let op = QueuedOperation::SetDeviceCurfew { device_id: 7, curfew_times: vec![] };
    assert_eq!(op.description(), "Set device 7 curfew");
    let op = QueuedOperation::BatchSetPetLocations {
        updates: vec![PetLocationUpdate { pet_id: 1, location: 1 }, PetLocationUpdate { pet_id: 2, location: 1 }],
    };
    assert_eq!(op.description(), "Batch set locations for 2 pets");
    let op = QueuedOperation::BatchDeviceControl { commands: vec![DeviceCommand { device_id: 1, lock_state: 0 }] };
    assert_eq!(op.description(), "Batch control 1 devices");
}

#[test]
fn retry_bound_is_fixed_at_creation() {
    let mut queue = OperationQueue::with_max_retries("q.json".to_string(), 1);
    assert_eq!(queue.max_retries(), 1);
    assert_eq!(queue.queue_file(), "q.json");
    queue.enqueue(QueuedOperation::SetPetLocation { pet_id: 1, location: 1 });
    assert_eq!(queue.get_all()[0].max_retries, 1);
    let transient = |_op: &QueuedOperation| OperationResult::Retry("t".to_string());
    assert_eq!(queue.synchronize(transient).retried, 1);
    assert_eq!(queue.synchronize(transient).failed, 1);
    assert!(queue.is_empty());
}
