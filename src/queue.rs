//! The mutation queue: an ordered log of write intents that could not be
//! applied at once, each with a retry counter, and the reconciliation pass
//! that replays them.
//!
//! The queue document is read and written whole by the caller around each
//! operation; the value here is that document.

use vstd::prelude::*;
use crate::clock::{new_operation_id, now_unix_seconds};
use crate::text::{decimal, decimal_digits};

verus! {

/// One scheduled lock/unlock window of a device.
#[derive(Debug, Clone)]
pub struct CurfewTime {
    pub enabled: bool,
    pub lock_time: String,
    pub unlock_time: String,
}

/// Target location of one pet within a batch.
#[derive(Debug, Clone, Copy)]
pub struct PetLocationUpdate {
    pub pet_id: u32,
    pub location: u32,
}

/// Target lock state of one device within a batch.
#[derive(Debug, Clone, Copy)]
pub struct DeviceCommand {
    pub device_id: u32,
    pub lock_state: u32,
}

/// A self-contained mutation intent: everything needed to replay it.
#[derive(Debug, Clone)]
pub enum QueuedOperation {
    SetPetLocation { pet_id: u32, location: u32 },
    SetDeviceLockState { device_id: u32, lock_state: u32 },
    SetDeviceCurfew { device_id: u32, curfew_times: Vec<CurfewTime> },
    BatchSetPetLocations { updates: Vec<PetLocationUpdate> },
    BatchDeviceControl { commands: Vec<DeviceCommand> },
}

/// A queued operation with its bookkeeping.
#[derive(Debug, Clone)]
pub struct QueuedOperationEntry {
    pub id: String,
    pub operation: QueuedOperation,
    /// Seconds since the Unix epoch.
    pub queued_at: i64,
    pub retry_count: u32,
    pub max_retries: u32,
}

/// Outcome of replaying one queued operation.
#[derive(Debug, Clone)]
pub enum OperationResult {
    Success,
    /// Transient failure: worth another attempt.
    Retry(String),
    /// Permanent failure: another attempt would fail the same way.
    Fail(String),
}

/// Tallies of one reconciliation pass.
#[derive(Debug, Clone, Copy)]
pub struct SyncResult {
    pub total_operations: usize,
    pub successful: usize,
    pub failed: usize,
    pub retried: usize,
}

/// Default bound on transient failures before an entry is dropped.
pub const DEFAULT_MAX_RETRIES: u32 = 3;

/// What reconciliation does with one entry.
pub enum Disposition {
    Succeeded,
    Failed,
    Retried,
}

impl QueuedOperationEntry {
    /// The counter never passes its bound while the entry is queued.
    pub open spec fn wf(&self) -> bool {
        self.retry_count <= self.max_retries
    }

    /// The same entry, one transient failure later.
    pub open spec fn bumped(self) -> QueuedOperationEntry {
        QueuedOperationEntry { retry_count: (self.retry_count + 1) as u32, ..self }
    }

    pub fn new(operation: QueuedOperation, id: String, queued_at: i64, max_retries: u32) -> (r:
        QueuedOperationEntry)
        ensures
            r == (QueuedOperationEntry { id, operation, queued_at, retry_count: 0, max_retries }),
    {
        QueuedOperationEntry { id, operation, queued_at, retry_count: 0, max_retries }
    }

    pub fn can_retry(&self) -> (r: bool)
        ensures
            r == (self.retry_count < self.max_retries),
    {
        self.retry_count < self.max_retries
    }

    pub fn increment_retry(&mut self)
        requires
            old(self).retry_count < u32::MAX,
        ensures
            *final(self) == old(self).bumped(),
    {
        self.retry_count = self.retry_count + 1;
    }
}


impl QueuedOperation {
    /// A one-line description for status displays.
    pub open spec fn spec_description(&self) -> Seq<char> {
        match self {
            QueuedOperation::SetPetLocation { pet_id, location } => "Set pet "@ + decimal_digits(
                *pet_id as nat,
            ) + " location to "@ + decimal_digits(*location as nat),
            QueuedOperation::SetDeviceLockState { device_id, lock_state } => "Set device "@
                + decimal_digits(*device_id as nat) + " lock state to "@ + decimal_digits(
                *lock_state as nat,
            ),
            QueuedOperation::SetDeviceCurfew { device_id, .. } => "Set device "@ + decimal_digits(
                *device_id as nat,
            ) + " curfew"@,
            QueuedOperation::BatchSetPetLocations { updates } => "Batch set locations for "@
                + decimal_digits(updates@.len()) + " pets"@,
            QueuedOperation::BatchDeviceControl { commands } => "Batch control "@ + decimal_digits(
                commands@.len(),
            ) + " devices"@,
        }
    }

    /// A one-line description for status displays.
    pub fn description(&self) -> (r: String)
        ensures
            r@ == self.spec_description(),
    {
        match self {
            QueuedOperation::SetPetLocation { pet_id, location } => {
                let mut r = String::from_str("Set pet ");
                let a = decimal(*pet_id as u64);
                r.append(a.as_str());
                r.append(" location to ");
                let b = decimal(*location as u64);
                r.append(b.as_str());
                r
            },
            QueuedOperation::SetDeviceLockState { device_id, lock_state } => {
                let mut r = String::from_str("Set device ");
                let a = decimal(*device_id as u64);
                r.append(a.as_str());
                r.append(" lock state to ");
                let b = decimal(*lock_state as u64);
                r.append(b.as_str());
                r
            },
            QueuedOperation::SetDeviceCurfew { device_id, .. } => {
                let mut r = String::from_str("Set device ");
                let a = decimal(*device_id as u64);
                r.append(a.as_str());
                r.append(" curfew");
                r
            },
            QueuedOperation::BatchSetPetLocations { updates } => {
                let mut r = String::from_str("Batch set locations for ");
                let a = decimal(updates.len() as u64);
                r.append(a.as_str());
                r.append(" pets");
                r
            },
            QueuedOperation::BatchDeviceControl { commands } => {
                let mut r = String::from_str("Batch control ");
                let a = decimal(commands.len() as u64);
                r.append(a.as_str());
                r.append(" devices");
                r
            },
        }
    }
}

/// How one outcome disposes of one entry.
pub open spec fn disposition(e: QueuedOperationEntry, o: OperationResult) -> Disposition {
    match o {
        OperationResult::Success => Disposition::Succeeded,
        OperationResult::Fail(_) => Disposition::Failed,
        OperationResult::Retry(_) => if e.retry_count < e.max_retries {
            Disposition::Retried
        } else {
            Disposition::Failed
        },
    }
}

/// The entries kept for the next pass, in their original relative order, each
/// with its counter raised by one.
pub open spec fn kept_after(entries: Seq<QueuedOperationEntry>, outcomes: Seq<OperationResult>) -> Seq<
    QueuedOperationEntry,
>
    decreases entries.len(),
{
    if entries.len() == 0 {
        Seq::empty()
    } else {
        let n = entries.len() - 1;
        let prev = kept_after(entries.take(n), outcomes.take(n));
        if disposition(entries[n], outcomes[n]) is Retried {
            prev.push(entries[n].bumped())
        } else {
            prev
        }
    }
}

/// How many entries the outcomes dispose of in the way `d`.
pub open spec fn count_disposed(
    entries: Seq<QueuedOperationEntry>,
    outcomes: Seq<OperationResult>,
    d: Disposition,
) -> nat
    decreases entries.len(),
{
    if entries.len() == 0 {
        0
    } else {
        let n = entries.len() - 1;
        let prev = count_disposed(entries.take(n), outcomes.take(n), d);
        if disposition(entries[n], outcomes[n]) == d {
            prev + 1
        } else {
            prev
        }
    }
}

/// `after` is `before` with one fresh entry for `op` appended.
pub open spec fn enqueued(
    before: Seq<QueuedOperationEntry>,
    after: Seq<QueuedOperationEntry>,
    op: QueuedOperation,
    max_retries: u32,
) -> bool {
    &&& after.len() == before.len() + 1
    &&& after.take(before.len() as int) == before
    &&& after.last().operation == op
    &&& after.last().retry_count == 0
    &&& after.last().max_retries == max_retries
}

/// The entries whose id differs from `id`, in order.
pub open spec fn without_id(entries: Seq<QueuedOperationEntry>, id: Seq<char>) -> Seq<
    QueuedOperationEntry,
>
    decreases entries.len(),
{
    if entries.len() == 0 {
        Seq::empty()
    } else {
        let n = entries.len() - 1;
        let prev = without_id(entries.take(n), id);
        if entries[n].id@ == id {
            prev
        } else {
            prev.push(entries[n])
        }
    }
}

/// Dropping the entries with `id` shortens the list exactly when one has it.
proof fn lemma_without_id_shrinks(entries: Seq<QueuedOperationEntry>, id: Seq<char>)
    ensures
        without_id(entries, id).len() <= entries.len(),
        (without_id(entries, id).len() < entries.len()) == exists|i: int|
            0 <= i < entries.len() && (#[trigger] entries[i]).id@ == id,
    decreases entries.len(),
{
    if entries.len() > 0 {
        let n = entries.len() - 1;
        let p = entries.take(n);
        lemma_without_id_shrinks(p, id);
        if exists|i: int| 0 <= i < entries.len() && (#[trigger] entries[i]).id@ == id {
            let i = choose|i: int| 0 <= i < entries.len() && (#[trigger] entries[i]).id@ == id;
            if i < n {
                assert(p[i] == entries[i]);
            }
        } else {
            assert forall|i: int| 0 <= i < p.len() implies (#[trigger] p[i]).id@ != id by {
                assert(p[i] == entries[i]);
            }
        }
    }
}

/// The queue document: pending entries in enqueue order, and the retry bound
/// given to new entries.
pub struct OperationQueue {
    queue_file: String,
    entries: Vec<QueuedOperationEntry>,
    max_retries: u32,
}

impl View for OperationQueue {
    type V = Seq<QueuedOperationEntry>;

    closed spec fn view(&self) -> Seq<QueuedOperationEntry> {
        self.entries@
    }
}

impl OperationQueue {
    pub closed spec fn retry_limit(&self) -> u32 {
        self.max_retries
    }

    pub closed spec fn file(&self) -> Seq<char> {
        self.queue_file@
    }

    /// Every entry respects its retry bound.
    pub open spec fn wf(&self) -> bool {
        forall|i: int| 0 <= i < self@.len() ==> #[trigger] self@[i].wf()
    }

    /// An empty queue stored at `queue_file`, with the default retry bound.
    pub fn new(queue_file: String) -> (r: OperationQueue)
        ensures
            r@ == Seq::<QueuedOperationEntry>::empty(),
            r.retry_limit() == DEFAULT_MAX_RETRIES,
            r.file() == queue_file@,
            r.wf(),
    {
        OperationQueue { queue_file, entries: Vec::new(), max_retries: DEFAULT_MAX_RETRIES }
    }

    /// An empty queue stored at `queue_file` whose new entries may fail
    /// transiently `max_retries` times.
    pub fn with_max_retries(queue_file: String, max_retries: u32) -> (r: OperationQueue)
        ensures
            r@ == Seq::<QueuedOperationEntry>::empty(),
            r.retry_limit() == max_retries,
            r.file() == queue_file@,
            r.wf(),
    {
        OperationQueue { queue_file, entries: Vec::new(), max_retries }
    }

    /// The queue stored at `queue_file`, holding `entries` as read from it.
    pub fn from_entries(queue_file: String, entries: Vec<QueuedOperationEntry>, max_retries: u32) -> (r:
        OperationQueue)
        ensures
            r@ == entries@,
            r.retry_limit() == max_retries,
            r.file() == queue_file@,
    {
        OperationQueue { queue_file, entries, max_retries }
    }

    pub fn queue_file(&self) -> (r: &String)
        ensures
            r@ == self.file(),
    {
        &self.queue_file
    }

    pub fn max_retries(&self) -> (r: u32)
        ensures
            r == self.retry_limit(),
    {
        self.max_retries
    }

    pub fn size(&self) -> (r: usize)
        ensures
            r == self@.len(),
    {
        self.entries.len()
    }

    pub fn is_empty(&self) -> (r: bool)
        ensures
            r == (self@.len() == 0),
    {
        self.entries.len() == 0
    }

    /// All pending entries, in enqueue order.
    pub fn get_all(&self) -> (r: &Vec<QueuedOperationEntry>)
        ensures
            r@ == self@,
    {
        &self.entries
    }

    /// Empties the queue.
    pub fn clear(&mut self)
        ensures
            final(self)@ == Seq::<QueuedOperationEntry>::empty(),
            final(self).retry_limit() == old(self).retry_limit(),
            final(self).file() == old(self).file(),
            final(self).wf(),
    {
        self.entries = Vec::new();
    }

    /// Appends a fresh entry for `operation` with the given id and time, and
    /// returns the id.
    pub fn enqueue_entry(&mut self, operation: QueuedOperation, id: String, queued_at: i64) -> (r: String)
        ensures
            final(self)@ == old(self)@.push(
                QueuedOperationEntry {
                    id: r,
                    operation,
                    queued_at,
                    retry_count: 0,
                    max_retries: old(self).retry_limit(),
                },
            ),
            r@ == id@,
            final(self).retry_limit() == old(self).retry_limit(),
            final(self).file() == old(self).file(),
            old(self).wf() ==> final(self).wf(),
    {
        let entry = QueuedOperationEntry::new(operation, id.clone(), queued_at, self.max_retries);
        self.entries.push(entry);
        proof {
            if old(self).wf() {
                assert forall|i: int| 0 <= i < self@.len() implies #[trigger] self@[i].wf() by {
                    if i < old(self)@.len() {
                        assert(self@[i] == old(self)@[i]);
                    }
                }
            }
        }
        id
    }

    /// Appends a fresh entry for `operation`, under a new random id stamped
    /// with the current time, and returns the id.
    pub fn enqueue(&mut self, operation: QueuedOperation) -> (r: String)
        ensures
            enqueued(old(self)@, final(self)@, operation, old(self).retry_limit()),
            final(self)@.last().id == r,
            r@.len() == 36,
            final(self).retry_limit() == old(self).retry_limit(),
            final(self).file() == old(self).file(),
            old(self).wf() ==> final(self).wf(),
    {
        let id = new_operation_id();
        let now = now_unix_seconds();
        let r = self.enqueue_entry(operation, id, now);
        proof {
            assert(self@.take(old(self)@.len() as int) =~= old(self)@);
        }
        r
    }

    /// Removes every entry with the given id; tells whether any was removed.
    pub fn remove(&mut self, operation_id: &str) -> (r: bool)
        ensures
            final(self)@ == without_id(old(self)@, operation_id@),
            r == (final(self)@.len() < old(self)@.len()),
            r == exists|i: int| 0 <= i < old(self)@.len() && (#[trigger] old(self)@[i]).id@ == operation_id@,
            final(self).retry_limit() == old(self).retry_limit(),
            final(self).file() == old(self).file(),
            old(self).wf() ==> final(self).wf(),
    {
        let target = String::from_str(operation_id);
        let mut kept: Vec<QueuedOperationEntry> = Vec::new();
        let mut rest: Vec<QueuedOperationEntry> = Vec::new();
        std::mem::swap(&mut rest, &mut self.entries);
        let ghost orig = rest@;
        let n = rest.len();
        let mut i: usize = 0;
        while i < n
            invariant
                0 <= i <= n == orig.len(),
                rest@ == orig.skip(i as int),
                kept@ == without_id(orig.take(i as int), operation_id@),
                target@ == operation_id@,
                forall|j: int| 0 <= j < orig.len() && old(self).wf() ==> #[trigger] orig[j].wf(),
                old(self).wf() ==> forall|j: int| 0 <= j < kept@.len() ==> #[trigger] kept@[j].wf(),
                kept@.len() <= i,
                orig == old(self)@,
                self.max_retries == old(self).max_retries,
                self.queue_file == old(self).queue_file,
            decreases n - i,
        {
            let entry = rest.remove(0);
            proof {
                assert(orig.take(i + 1).take(i as int) =~= orig.take(i as int));
                assert(orig.take(i + 1)[i as int] == orig[i as int]);
                assert(rest@ =~= orig.skip(i + 1));
            }
            if entry.id != target {
                kept.push(entry);
            }
            i = i + 1;
        }
        proof {
            assert(orig.take(n as int) =~= orig);
        }
        let removed = kept.len() < n;
        proof {
            lemma_without_id_shrinks(orig, operation_id@);
        }
        self.entries = kept;
        removed
    }

    /// Applies the outcomes of replaying every entry once, in order
    /// (`outcomes[i]` is that of entry `i`): keeps for the next pass only the
    /// entries that failed transiently while under their retry bound, with
    /// their counters raised by one, and tallies the rest.
    pub fn synchronize_with_outcomes(&mut self, outcomes: &Vec<OperationResult>) -> (r: SyncResult)
        requires
            outcomes@.len() == old(self)@.len(),
        ensures
            final(self)@ == kept_after(old(self)@, outcomes@),
            r.total_operations == old(self)@.len(),
            r.successful == count_disposed(old(self)@, outcomes@, Disposition::Succeeded),
            r.failed == count_disposed(old(self)@, outcomes@, Disposition::Failed),
            r.retried == count_disposed(old(self)@, outcomes@, Disposition::Retried),
            final(self).retry_limit() == old(self).retry_limit(),
            final(self).file() == old(self).file(),
            old(self).wf() ==> final(self).wf(),
    {
        let ghost outs = outcomes@;
        let ghost orig = self@;
        let n = self.entries.len();
        let mut result = SyncResult { total_operations: n, successful: 0, failed: 0, retried: 0 };
        let mut kept: Vec<QueuedOperationEntry> = Vec::new();
        let mut rest: Vec<QueuedOperationEntry> = Vec::new();
        std::mem::swap(&mut rest, &mut self.entries);
        let mut i: usize = 0;
        while i < n
            invariant
                0 <= i <= n == orig.len() == outs.len(),
                outs == outcomes@,
                orig == old(self)@,
                rest@ == orig.skip(i as int),
                kept@ == kept_after(orig.take(i as int), outs.take(i as int)),
                result.total_operations == n,
                result.successful == count_disposed(orig.take(i as int), outs.take(i as int), Disposition::Succeeded),
                result.failed == count_disposed(orig.take(i as int), outs.take(i as int), Disposition::Failed),
                result.retried == count_disposed(orig.take(i as int), outs.take(i as int), Disposition::Retried),
                result.successful + result.failed + result.retried == i,
                old(self).wf() ==> forall|j: int| 0 <= j < kept@.len() ==> #[trigger] kept@[j].wf(),
                self.max_retries == old(self).max_retries,
                self.queue_file == old(self).queue_file,
            decreases n - i,
        {
            let mut entry = rest.remove(0);
            proof {
                assert(orig.take(i + 1).take(i as int) =~= orig.take(i as int));
                assert(outs.take(i + 1).take(i as int) =~= outs.take(i as int));
                assert(orig.take(i + 1)[i as int] == orig[i as int]);
                assert(outs.take(i + 1)[i as int] == outs[i as int]);
                assert(rest@ =~= orig.skip(i + 1));
                if old(self).wf() {
                    assert(orig[i as int].wf());
                }
            }
            match &outcomes[i] {
                OperationResult::Success => {
                    result.successful = result.successful + 1;
                },
                OperationResult::Retry(_) => {
                    if entry.can_retry() {
                        entry.increment_retry();
                        kept.push(entry);
                        result.retried = result.retried + 1;
                    } else {
                        result.failed = result.failed + 1;
                    }
                },
                OperationResult::Fail(_) => {
                    result.failed = result.failed + 1;
                },
            }
            i = i + 1;
        }
        proof {
            assert(orig.take(n as int) =~= orig);
            assert(outs.take(n as int) =~= outs);
        }
        self.entries = kept;
        result
    }

    /// Replays every entry once, in enqueue order, through `executor`, and
    /// disposes of each by its outcome as `synchronize_with_outcomes` does.
    pub fn synchronize<F>(&mut self, executor: F) -> (r: SyncResult) where
        F: Fn(&QueuedOperation) -> OperationResult,

        requires
            forall|op: &QueuedOperation| executor.requires((op,)),
        ensures
            exists|outs: Seq<OperationResult>|
                {
                    &&& outs.len() == old(self)@.len()
                    &&& forall|i: int|
                        0 <= i < outs.len() ==> executor.ensures(
                            (&old(self)@[i].operation,),
                            #[trigger] outs[i],
                        )
                    &&& final(self)@ == kept_after(old(self)@, outs)
                    &&& r.successful == count_disposed(old(self)@, outs, Disposition::Succeeded)
                    &&& r.failed == count_disposed(old(self)@, outs, Disposition::Failed)
                    &&& r.retried == count_disposed(old(self)@, outs, Disposition::Retried)
                },
            r.total_operations == old(self)@.len(),
            final(self).retry_limit() == old(self).retry_limit(),
            final(self).file() == old(self).file(),
            old(self).wf() ==> final(self).wf(),
    {
        let mut outcomes: Vec<OperationResult> = Vec::new();
        let n = self.entries.len();
        let mut i: usize = 0;
        while i < n
            invariant
                0 <= i <= n == self@.len(),
                self@ == old(self)@,
                self.max_retries == old(self).max_retries,
                self.queue_file == old(self).queue_file,
                outcomes@.len() == i,
                forall|op: &QueuedOperation| executor.requires((op,)),
                forall|j: int|
                    0 <= j < i ==> executor.ensures((&self@[j].operation,), #[trigger] outcomes@[j]),
            decreases n - i,
        {
            let o = executor(&self.entries[i].operation);
            outcomes.push(o);
            i = i + 1;
        }
        self.synchronize_with_outcomes(&outcomes)
    }
}


/// The entries left after `k` passes in each of which every replay fails
/// transiently with `msg`.
pub open spec fn after_transient_passes(entries: Seq<QueuedOperationEntry>, k: nat, msg: String) -> Seq<
    QueuedOperationEntry,
>
    decreases k,
{
    if k == 0 {
        entries
    } else {
        let prev = after_transient_passes(entries, (k - 1) as nat, msg);
        kept_after(prev, Seq::new(prev.len(), |i: int| OperationResult::Retry(msg)))
    }
}

proof fn lemma_enqueue_prefix(
    states: Seq<Seq<QueuedOperationEntry>>,
    ops: Seq<QueuedOperation>,
    max_retries: u32,
    m: int,
)
    requires
        states.len() == ops.len() + 1,
        states[0].len() == 0,
        forall|k: int|
            0 <= k < ops.len() ==> enqueued(#[trigger] states[k], states[k + 1], ops[k], max_retries),
        0 <= m <= ops.len(),
    ensures
        states[m].len() == m,
        forall|j: int|
            0 <= j < m ==> (#[trigger] states[m][j]).operation == ops[j] && states[m][j].retry_count
                == 0 && states[m][j].max_retries == max_retries,
    decreases m,
{
    if m > 0 {
        lemma_enqueue_prefix(states, ops, max_retries, m - 1);
        assert(enqueued(states[m - 1], states[m], ops[m - 1], max_retries));
        assert forall|j: int| 0 <= j < m implies (#[trigger] states[m][j]).operation == ops[j]
            && states[m][j].retry_count == 0 && states[m][j].max_retries == max_retries by {
            if j < m - 1 {
                assert(states[m][j] == states[m].take(m - 1)[j]);
            }
        }
    }
}

/// Enqueuing operations one after another, starting from an empty queue,
/// leaves exactly one fresh entry per operation, in the order of enqueueing.
/// (`states[k]` is the queue before the `k`-th enqueue.)
pub proof fn lemma_enqueue_in_order(
    states: Seq<Seq<QueuedOperationEntry>>,
    ops: Seq<QueuedOperation>,
    max_retries: u32,
)
    requires
        states.len() == ops.len() + 1,
        states[0].len() == 0,
        forall|k: int|
            0 <= k < ops.len() ==> enqueued(#[trigger] states[k], states[k + 1], ops[k], max_retries),
    ensures
        states.last().len() == ops.len(),
        forall|j: int|
            0 <= j < ops.len() ==> (#[trigger] states.last()[j]).operation == ops[j]
                && states.last()[j].retry_count == 0,
{
    lemma_enqueue_prefix(states, ops, max_retries, ops.len() as int);
}

/// A pass whose every replay succeeds empties the queue and credits every
/// entry as a success, none as failed or retried.
pub proof fn lemma_all_success(entries: Seq<QueuedOperationEntry>, outcomes: Seq<OperationResult>)
    requires
        outcomes.len() == entries.len(),
        forall|i: int| 0 <= i < outcomes.len() ==> #[trigger] outcomes[i] is Success,
    ensures
        kept_after(entries, outcomes).len() == 0,
        count_disposed(entries, outcomes, Disposition::Succeeded) == entries.len(),
        count_disposed(entries, outcomes, Disposition::Failed) == 0,
        count_disposed(entries, outcomes, Disposition::Retried) == 0,
    decreases entries.len(),
{
    if entries.len() > 0 {
        let n = entries.len() - 1;
        let o = outcomes.take(n);
        assert forall|i: int| 0 <= i < o.len() implies #[trigger] o[i] is Success by {
            assert(o[i] == outcomes[i]);
        }
        lemma_all_success(entries.take(n), o);
        assert(outcomes[n] is Success);
    }
}

/// A single entry whose replay fails permanently is dropped by the pass at
/// once, its counter untouched, and counted as one failure.
pub proof fn lemma_permanent_failure_drops(e: QueuedOperationEntry, msg: String)
    ensures
        kept_after(seq![e], seq![OperationResult::Fail(msg)]).len() == 0,
        count_disposed(seq![e], seq![OperationResult::Fail(msg)], Disposition::Failed) == 1,
        count_disposed(seq![e], seq![OperationResult::Fail(msg)], Disposition::Succeeded) == 0,
        count_disposed(seq![e], seq![OperationResult::Fail(msg)], Disposition::Retried) == 0,
{
    reveal_with_fuel(kept_after, 2);
    reveal_with_fuel(count_disposed, 2);
    assert(seq![e].take(0) =~= Seq::<QueuedOperationEntry>::empty());
    assert(seq![OperationResult::Fail(msg)].take(0) =~= Seq::<OperationResult>::empty());
}

/// One pass over a single entry that fails transiently: kept with its counter
/// raised while under its bound, else dropped and counted as failed.
proof fn lemma_single_transient(e: QueuedOperationEntry, msg: String)
    ensures
        ({
            let outs = Seq::new(1, |i: int| OperationResult::Retry(msg));
            &&& e.retry_count < e.max_retries ==> kept_after(seq![e], outs) == seq![e.bumped()]
                && count_disposed(seq![e], outs, Disposition::Retried) == 1
                && count_disposed(seq![e], outs, Disposition::Failed) == 0
            &&& e.retry_count >= e.max_retries ==> kept_after(seq![e], outs).len() == 0
                && count_disposed(seq![e], outs, Disposition::Failed) == 1
                && count_disposed(seq![e], outs, Disposition::Retried) == 0
        }),
{
    reveal_with_fuel(kept_after, 2);
    reveal_with_fuel(count_disposed, 2);
    let outs = Seq::new(1, |i: int| OperationResult::Retry(msg));
    assert(seq![e].take(0) =~= Seq::<QueuedOperationEntry>::empty());
    assert(outs.take(0) =~= Seq::<OperationResult>::empty());
    assert(seq![e][0] == e);
    assert(Seq::<QueuedOperationEntry>::empty().push(e.bumped()) =~= seq![e.bumped()]);
}

/// After `k` all-transient passes, a single entry that started under its
/// bound with `k` failures to spare is still queued, its counter raised by `k`.
proof fn lemma_transient_passes(e: QueuedOperationEntry, msg: String, k: nat)
    requires
        e.wf(),
        k <= e.max_retries - e.retry_count,
    ensures
        after_transient_passes(seq![e], k, msg) == seq![
            QueuedOperationEntry { retry_count: (e.retry_count + k) as u32, ..e },
        ],
    decreases k,
{
    if k > 0 {
        lemma_transient_passes(e, msg, (k - 1) as nat);
        let prev_e = QueuedOperationEntry { retry_count: (e.retry_count + k - 1) as u32, ..e };
        lemma_single_transient(prev_e, msg);
        assert(prev_e.bumped() == QueuedOperationEntry { retry_count: (e.retry_count + k) as u32, ..e });
    }
}

/// Retry bound: a single entry whose every replay fails transiently stays
/// queued through the next `max_retries - retry_count` passes, its counter
/// raised by one each time; the pass after those drops it and counts it as
/// failed rather than retried.
pub proof fn lemma_retry_bound(e: QueuedOperationEntry, msg: String)
    requires
        e.wf(),
    ensures
        forall|k: nat|
            k <= e.max_retries - e.retry_count ==> #[trigger] after_transient_passes(seq![e], k, msg)
                == seq![QueuedOperationEntry { retry_count: (e.retry_count + k) as u32, ..e }],
        ({
            let spent = after_transient_passes(seq![e], (e.max_retries - e.retry_count) as nat, msg);
            let outs = Seq::new(1, |i: int| OperationResult::Retry(msg));
            &&& spent.len() == 1
            &&& spent[0].retry_count == e.max_retries
            &&& kept_after(spent, outs).len() == 0
            &&& count_disposed(spent, outs, Disposition::Failed) == 1
            &&& count_disposed(spent, outs, Disposition::Retried) == 0
        }),
{
    assert forall|k: nat| k <= e.max_retries - e.retry_count implies #[trigger] after_transient_passes(
        seq![e],
        k,
        msg,
    ) == seq![QueuedOperationEntry { retry_count: (e.retry_count + k) as u32, ..e }] by {
        lemma_transient_passes(e, msg, k);
    }
    let k = (e.max_retries - e.retry_count) as nat;
    lemma_transient_passes(e, msg, k);
    let last = QueuedOperationEntry { retry_count: e.max_retries, ..e };
    assert(after_transient_passes(seq![e], k, msg) == seq![last]);
    lemma_single_transient(last, msg);
}

} // verus!
