//! The decisions of the offline-first orchestrator. The caller performs the
//! remote calls, the connectivity probe and the storage I/O, and hands the
//! results to these functions, which say what to serve, what to queue and what
//! to report.

use vstd::prelude::*;
use crate::cache::{CacheKey, CacheStore, CachedData, fresh_lookup, owned};
use crate::errors::{CliError, RemoteFailure};
use crate::queue::{
    DeviceCommand, Disposition, OperationQueue, OperationResult, PetLocationUpdate, QueuedOperation,
    QueuedOperationEntry, SyncResult, count_disposed, enqueued, kept_after,
};
use crate::text::{push_text, views};

verus! {

/// How a failed remote call is treated.
#[derive(Debug, Clone, Copy, PartialEq, Eq, Structural)]
pub enum FailureClass {
    /// Likely to succeed later: timeouts, connection failures, server faults.
    Transient,
    /// The credential was refused: a replay would fail the same way.
    Authorization,
    /// Invalid requests and malformed responses.
    Permanent,
}

pub open spec fn spec_classify(f: RemoteFailure) -> FailureClass {
    if f.timeout || f.connect || f.request {
        FailureClass::Transient
    } else {
        match f.status {
            Some(c) => if c == 401 || c == 403 {
                FailureClass::Authorization
            } else if 500 <= c <= 599 {
                FailureClass::Transient
            } else {
                FailureClass::Permanent
            },
            None => FailureClass::Permanent,
        }
    }
}

/// Classifies a failed remote call.
pub fn classify(f: &RemoteFailure) -> (r: FailureClass)
    ensures
        r == spec_classify(*f),
{
    if f.timeout || f.connect || f.request {
        FailureClass::Transient
    } else {
        match f.status {
            Some(c) => {
                if c == 401 || c == 403 {
                    FailureClass::Authorization
                } else if 500 <= c && c <= 599 {
                    FailureClass::Transient
                } else {
                    FailureClass::Permanent
                }
            },
            None => FailureClass::Permanent,
        }
    }
}

/// The outcome of replaying a queued operation, from the remote call's result.
pub fn replay_outcome(result: &Result<(), RemoteFailure>) -> (r: OperationResult)
    ensures
        match *result {
            Ok(_) => r is Success,
            Err(f) => if spec_classify(f) == FailureClass::Transient {
                r matches OperationResult::Retry(m) && m@ == "Network error: "@ + f.message@
            } else {
                r matches OperationResult::Fail(m) && m@ == "Permanent error: "@ + f.message@
            },
        },
{
    match result {
        Ok(()) => OperationResult::Success,
        Err(f) => {
            if classify(f) == FailureClass::Transient {
                let mut m = String::from_str("Network error: ");
                m.append(f.message.as_str());
                OperationResult::Retry(m)
            } else {
                let mut m = String::from_str("Permanent error: ");
                m.append(f.message.as_str());
                OperationResult::Fail(m)
            }
        },
    }
}

/// What became of an accepted write.
#[derive(Debug, Clone)]
pub enum WriteStatus {
    /// The remote service applied it.
    Applied,
    /// It was queued, under this id, for the next reconciliation.
    Deferred(String),
}

/// Step one of a read: the cached entry to serve without asking the remote
/// service, if any.
pub fn cached_read<'a, T>(store: &'a CacheStore<T>, key: &CacheKey, force_refresh: bool, now: i64) -> (r:
    Option<&'a CachedData<T>>)
    requires
        store.wf(),
    ensures
        owned(r) == if force_refresh {
            None
        } else {
            fresh_lookup(store@, *key, now as int)
        },
{
    if force_refresh {
        None
    } else {
        store.get_fresh_at(key, now)
    }
}

/// Last step of a read whose remote call failed: any cached entry, stale or
/// not, else the error to surface.
pub fn fallback_read<'a, T>(store: &'a CacheStore<T>, key: &CacheKey, failure: &RemoteFailure, resource: &str) -> (r:
    Result<&'a CachedData<T>, CliError>)
    requires
        store.wf(),
    ensures
        match r {
            Ok(e) => store.entry(*key) == Some(*e),
            Err(err) => store.entry(*key) is None && (err matches CliError::Network {
                message: m,
                retry_possible: true,
                source: None,
            } && m@ == "Failed to get "@ + resource@ + " and no cached data available: "@
                + failure.message@),
        },
{
    match store.get_fallback(key) {
        Some(e) => Ok(e),
        None => {
            let mut m = String::from_str("Failed to get ");
            m.append(resource);
            m.append(" and no cached data available: ");
            m.append(failure.message.as_str());
            Err(CliError::network_error(m.as_str(), true))
        },
    }
}

/// The error surfaced for a write that was neither applied nor queued.
pub open spec fn rejected_write(err: CliError, action: Seq<char>, f: RemoteFailure) -> bool {
    err matches CliError::Network { message: m, retry_possible: false, source: None } && m@ == "Failed to "@
        + action + ": "@ + f.message@
}

fn rejection(action: &str, f: &RemoteFailure) -> (r: CliError)
    ensures
        rejected_write(r, action@, *f),
{
    let mut m = String::from_str("Failed to ");
    m.append(action);
    m.append(": ");
    m.append(f.message.as_str());
    CliError::network_error(m.as_str(), false)
}

/// Settles a single write after the remote call: applied, queued for later
/// on a transient failure, or surfaced as an error (nothing queued).
/// `action` names the write in the error text.
pub fn settle_write(
    queue: &mut OperationQueue,
    operation: QueuedOperation,
    result: &Result<(), RemoteFailure>,
    action: &str,
) -> (r: Result<WriteStatus, CliError>)
    ensures
        final(queue).retry_limit() == old(queue).retry_limit(),
        final(queue).file() == old(queue).file(),
        old(queue).wf() ==> final(queue).wf(),
        match *result {
            Ok(_) => (r matches Ok(WriteStatus::Applied) && final(queue)@ == old(queue)@),
            Err(f) => if spec_classify(f) == FailureClass::Transient {
                r matches Ok(WriteStatus::Deferred(id)) && enqueued(
                    old(queue)@,
                    final(queue)@,
                    operation,
                    old(queue).retry_limit(),
                ) && final(queue)@.last().id == id
            } else {
                r matches Err(err) && rejected_write(err, action@, f) && final(queue)@ == old(queue)@
            },
        },
{
    match result {
        Ok(()) => Ok(WriteStatus::Applied),
        Err(f) => {
            if classify(f) == FailureClass::Transient {
                let id = queue.enqueue(operation);
                Ok(WriteStatus::Deferred(id))
            } else {
                Err(rejection(action, f))
            }
        },
    }
}

/// One item of a batch that the remote service could not apply.
#[derive(Debug, Clone)]
pub struct BatchFailure {
    pub id: u32,
    pub error: String,
}

/// What the remote service reports of a batch: the identifiers it applied and
/// those it did not.
#[derive(Debug, Clone)]
pub struct BatchResult {
    pub successful: Vec<u32>,
    pub failed: Vec<BatchFailure>,
}

/// The first update for pet `id`.
pub open spec fn first_pet_update(updates: Seq<PetLocationUpdate>, id: u32) -> Option<PetLocationUpdate>
    decreases updates.len(),
{
    if updates.len() == 0 {
        None
    } else if updates[0].pet_id == id {
        Some(updates[0])
    } else {
        first_pet_update(updates.skip(1), id)
    }
}

/// For each failure, in order, the requested update for its pet, if any.
pub open spec fn pet_updates_to_retry(updates: Seq<PetLocationUpdate>, failed: Seq<BatchFailure>) -> Seq<
    PetLocationUpdate,
>
    decreases failed.len(),
{
    if failed.len() == 0 {
        Seq::empty()
    } else {
        let prev = pet_updates_to_retry(updates, failed.drop_last());
        match first_pet_update(updates, failed.last().id) {
            Some(u) => prev.push(u),
            None => prev,
        }
    }
}

/// The first command for device `id`.
pub open spec fn first_device_command(commands: Seq<DeviceCommand>, id: u32) -> Option<DeviceCommand>
    decreases commands.len(),
{
    if commands.len() == 0 {
        None
    } else if commands[0].device_id == id {
        Some(commands[0])
    } else {
        first_device_command(commands.skip(1), id)
    }
}

/// For each failure, in order, the requested command for its device, if any.
pub open spec fn device_commands_to_retry(commands: Seq<DeviceCommand>, failed: Seq<BatchFailure>) -> Seq<
    DeviceCommand,
>
    decreases failed.len(),
{
    if failed.len() == 0 {
        Seq::empty()
    } else {
        let prev = device_commands_to_retry(commands, failed.drop_last());
        match first_device_command(commands, failed.last().id) {
            Some(c) => prev.push(c),
            None => prev,
        }
    }
}

fn find_pet_update(updates: &Vec<PetLocationUpdate>, id: u32) -> (r: Option<PetLocationUpdate>)
    ensures
        r == first_pet_update(updates@, id),
{
    let n = updates.len();
    let mut i: usize = 0;
    assert(updates@.skip(0) =~= updates@);
    while i < n
        invariant
            0 <= i <= n == updates@.len(),
            first_pet_update(updates@.skip(i as int), id) == first_pet_update(updates@, id),
        decreases n - i,
    {
        proof {
            assert(updates@.skip(i as int).skip(1) =~= updates@.skip(i + 1));
            assert(updates@.skip(i as int)[0] == updates@[i as int]);
        }
        if updates[i].pet_id == id {
            return Some(updates[i]);
        }
        i = i + 1;
    }
    None
}

fn find_device_command(commands: &Vec<DeviceCommand>, id: u32) -> (r: Option<DeviceCommand>)
    ensures
        r == first_device_command(commands@, id),
{
    let n = commands.len();
    let mut i: usize = 0;
    assert(commands@.skip(0) =~= commands@);
    while i < n
        invariant
            0 <= i <= n == commands@.len(),
            first_device_command(commands@.skip(i as int), id) == first_device_command(commands@, id),
        decreases n - i,
    {
        proof {
            assert(commands@.skip(i as int).skip(1) =~= commands@.skip(i + 1));
            assert(commands@.skip(i as int)[0] == commands@[i as int]);
        }
        if commands[i].device_id == id {
            return Some(commands[i]);
        }
        i = i + 1;
    }
    None
}

/// The requested updates whose pets the batch failed on, in the order of the
/// failures.
pub fn failed_pet_updates(updates: &Vec<PetLocationUpdate>, failed: &Vec<BatchFailure>) -> (r: Vec<
    PetLocationUpdate,
>)
    ensures
        r@ == pet_updates_to_retry(updates@, failed@),
{
    let mut r: Vec<PetLocationUpdate> = Vec::new();
    let n = failed.len();
    let mut i: usize = 0;
    while i < n
        invariant
            0 <= i <= n == failed@.len(),
            r@ == pet_updates_to_retry(updates@, failed@.take(i as int)),
        decreases n - i,
    {
        proof {
            assert(failed@.take(i + 1).drop_last() =~= failed@.take(i as int));
        }
        match find_pet_update(updates, failed[i].id) {
            Some(u) => r.push(u),
            None => {},
        }
        i = i + 1;
    }
    proof {
        assert(failed@.take(n as int) =~= failed@);
    }
    r
}

/// The requested commands whose devices the batch failed on, in the order of
/// the failures.
pub fn failed_device_commands(commands: &Vec<DeviceCommand>, failed: &Vec<BatchFailure>) -> (r: Vec<
    DeviceCommand,
>)
    ensures
        r@ == device_commands_to_retry(commands@, failed@),
{
    let mut r: Vec<DeviceCommand> = Vec::new();
    let n = failed.len();
    let mut i: usize = 0;
    while i < n
        invariant
            0 <= i <= n == failed@.len(),
            r@ == device_commands_to_retry(commands@, failed@.take(i as int)),
        decreases n - i,
    {
        proof {
            assert(failed@.take(i + 1).drop_last() =~= failed@.take(i as int));
        }
        match find_device_command(commands, failed[i].id) {
            Some(c) => r.push(c),
            None => {},
        }
        i = i + 1;
    }
    proof {
        assert(failed@.take(n as int) =~= failed@);
    }
    r
}

/// Settles a batch of pet location updates after the remote call. On a
/// partial result, the updates the service failed on are queued as one new
/// batch (the applied ones never are); on a transient failure of the whole
/// call, the whole batch is queued; on any other failure, nothing is.
pub fn settle_batch_pet_locations(
    queue: &mut OperationQueue,
    updates: Vec<PetLocationUpdate>,
    result: &Result<BatchResult, RemoteFailure>,
) -> (r: Result<WriteStatus, CliError>)
    ensures
        final(queue).retry_limit() == old(queue).retry_limit(),
        final(queue).file() == old(queue).file(),
        old(queue).wf() ==> final(queue).wf(),
        match *result {
            Ok(b) => {
                let retry = pet_updates_to_retry(updates@, b.failed@);
                if retry.len() == 0 {
                    r matches Ok(WriteStatus::Applied) && final(queue)@ == old(queue)@
                } else {
                    r matches Ok(WriteStatus::Deferred(id)) && final(queue)@.last().id == id
                        && enqueued(
                        old(queue)@,
                        final(queue)@,
                        QueuedOperation::BatchSetPetLocations { updates: final(queue)@.last().operation->updates },
                        old(queue).retry_limit(),
                    ) && final(queue)@.last().operation is BatchSetPetLocations
                        && final(queue)@.last().operation->updates@ == retry
                }
            },
            Err(f) => if spec_classify(f) == FailureClass::Transient {
                r matches Ok(WriteStatus::Deferred(id)) && final(queue)@.last().id == id && enqueued(
                    old(queue)@,
                    final(queue)@,
                    QueuedOperation::BatchSetPetLocations { updates },
                    old(queue).retry_limit(),
                )
            } else {
                r matches Err(err) && rejected_write(err, "batch set pet locations"@, f) && final(queue)@ == old(queue)@
            },
        },
{
    match result {
        Ok(b) => {
            let retry = failed_pet_updates(&updates, &b.failed);
            if retry.len() > 0 {
                let id = queue.enqueue(QueuedOperation::BatchSetPetLocations { updates: retry });
                Ok(WriteStatus::Deferred(id))
            } else {
                Ok(WriteStatus::Applied)
            }
        },
        Err(f) => {
            if classify(f) == FailureClass::Transient {
                let id = queue.enqueue(QueuedOperation::BatchSetPetLocations { updates });
                Ok(WriteStatus::Deferred(id))
            } else {
                Err(rejection("batch set pet locations", f))
            }
        },
    }
}

/// Settles a batch of device commands after the remote call, as
/// `settle_batch_pet_locations` does for pets.
pub fn settle_batch_device_control(
    queue: &mut OperationQueue,
    commands: Vec<DeviceCommand>,
    result: &Result<BatchResult, RemoteFailure>,
) -> (r: Result<WriteStatus, CliError>)
    ensures
        final(queue).retry_limit() == old(queue).retry_limit(),
        final(queue).file() == old(queue).file(),
        old(queue).wf() ==> final(queue).wf(),
        match *result {
            Ok(b) => {
                let retry = device_commands_to_retry(commands@, b.failed@);
                if retry.len() == 0 {
                    r matches Ok(WriteStatus::Applied) && final(queue)@ == old(queue)@
                } else {
                    r matches Ok(WriteStatus::Deferred(id)) && final(queue)@.last().id == id
                        && enqueued(
                        old(queue)@,
                        final(queue)@,
                        QueuedOperation::BatchDeviceControl { commands: final(queue)@.last().operation->commands },
                        old(queue).retry_limit(),
                    ) && final(queue)@.last().operation is BatchDeviceControl
                        && final(queue)@.last().operation->commands@ == retry
                }
            },
            Err(f) => if spec_classify(f) == FailureClass::Transient {
                r matches Ok(WriteStatus::Deferred(id)) && final(queue)@.last().id == id && enqueued(
                    old(queue)@,
                    final(queue)@,
                    QueuedOperation::BatchDeviceControl { commands },
                    old(queue).retry_limit(),
                )
            } else {
                r matches Err(err) && rejected_write(err, "batch control devices"@, f) && final(queue)@ == old(queue)@
            },
        },
{
    match result {
        Ok(b) => {
            let retry = failed_device_commands(&commands, &b.failed);
            if retry.len() > 0 {
                let id = queue.enqueue(QueuedOperation::BatchDeviceControl { commands: retry });
                Ok(WriteStatus::Deferred(id))
            } else {
                Ok(WriteStatus::Applied)
            }
        },
        Err(f) => {
            if classify(f) == FailureClass::Transient {
                let id = queue.enqueue(QueuedOperation::BatchDeviceControl { commands });
                Ok(WriteStatus::Deferred(id))
            } else {
                Err(rejection("batch control devices", f))
            }
        },
    }
}

/// What a connectivity probe's answer means: any success or client-error
/// status shows the service is up; other statuses, and no answer at all
/// (timeout, refused connection, failed lookup), do not.
pub fn probe_says_reachable(status: Option<u16>) -> (r: bool)
    ensures
        r == match status {
            Some(c) => (200 <= c <= 299 || 400 <= c <= 499),
            None => false,
        },
{
    match status {
        Some(c) => (200 <= c && c <= 299) || (400 <= c && c <= 499),
        None => false,
    }
}

/// Whether a reconciliation pass should run at all: only when something is
/// queued. The connectivity probe comes after this test.
pub fn needs_reconciliation(queue: &OperationQueue) -> (r: bool)
    ensures
        r == (queue@.len() > 0),
{
    !queue.is_empty()
}

/// Reconciliation: nothing when the queue is empty or the service is
/// unreachable; otherwise one pass over the queue with the replay outcomes
/// (`outcomes[i]` is that of entry `i`), whose tallies are returned.
pub fn synchronize_when_online(queue: &mut OperationQueue, reachable: bool, outcomes: &Vec<OperationResult>) -> (r:
    Option<SyncResult>)
    requires
        reachable && old(queue)@.len() > 0 ==> outcomes@.len() == old(queue)@.len(),
    ensures
        final(queue).retry_limit() == old(queue).retry_limit(),
        final(queue).file() == old(queue).file(),
        old(queue).wf() ==> final(queue).wf(),
        old(queue)@.len() == 0 || !reachable ==> r is None && final(queue)@ == old(queue)@,
        old(queue)@.len() > 0 && reachable ==> (r matches Some(s) && final(queue)@ == kept_after(
            old(queue)@,
            outcomes@,
        ) && s.total_operations == old(queue)@.len() && s.successful == count_disposed(
            old(queue)@,
            outcomes@,
            Disposition::Succeeded,
        ) && s.failed == count_disposed(old(queue)@, outcomes@, Disposition::Failed) && s.retried
            == count_disposed(old(queue)@, outcomes@, Disposition::Retried)),
{
    if !needs_reconciliation(queue) || !reachable {
        None
    } else {
        Some(queue.synchronize_with_outcomes(outcomes))
    }
}

/// The number of queued operations and a description of each, in order.
pub fn queue_status(queue: &OperationQueue) -> (r: (usize, Vec<String>))
    ensures
        r.0 == queue@.len(),
        views(r.1@) == queue@.map_values(|e: QueuedOperationEntry| e.operation.spec_description()),
{
    let entries = queue.get_all();
    let n = entries.len();
    let mut d: Vec<String> = Vec::new();
    let mut i: usize = 0;
    while i < n
        invariant
            0 <= i <= n == entries@.len(),
            entries@ == queue@,
            views(d@) == entries@.take(i as int).map_values(
                |e: QueuedOperationEntry| e.operation.spec_description(),
            ),
        decreases n - i,
    {
        let s = entries[i].operation.description();
        push_text(&mut d, s);
        proof {
            assert(entries@.take(i + 1).map_values(
                |e: QueuedOperationEntry| e.operation.spec_description(),
            ) =~= entries@.take(i as int).map_values(
                |e: QueuedOperationEntry| e.operation.spec_description(),
            ).push(entries@[i as int].operation.spec_description()));
            assert(views(d@) =~= entries@.take(i + 1).map_values(
                |e: QueuedOperationEntry| e.operation.spec_description(),
            ));
        }
        i = i + 1;
    }
    proof {
        assert(entries@.take(n as int) =~= entries@);
    }
    (n, d)
}

} // verus!
