//! The read-through cache: snapshots of remote read responses, each stamped
//! with when it was taken and when it goes stale.
//!
//! Times are whole seconds since the Unix epoch, UTC. The store value is the
//! content of the cache directory: one entry per key, which the caller reads
//! from and writes back to its files.

use vstd::prelude::*;
use crate::clock::{now_unix_seconds, valid_now};
use crate::text::{decimal, decimal_digits};

verus! {

/// The longest time-to-live, in seconds: that of the calendar library's
/// longest duration.
pub const MAX_TTL_SECONDS: i64 = 9_223_372_036_854_775;

/// The range of timestamps whose calendar date can be rendered.
pub const DATE_LIMIT: i64 = 8_000_000_000_000;

/// A time-to-live the calendar library can represent.
pub open spec fn valid_ttl(ttl: i64) -> bool {
    0 <= ttl <= MAX_TTL_SECONDS
}

/// A payload with the time it was cached and the time it goes stale.
#[derive(Debug, Clone)]
pub struct CachedData<T> {
    pub data: T,
    pub cached_at: i64,
    pub expires_at: i64,
}

impl<T> CachedData<T> {
    /// Stale strictly after its expiry time.
    pub open spec fn expired_at(&self, now: int) -> bool {
        now > self.expires_at
    }

    /// The entry for `data` cached at `now` with time-to-live `ttl_seconds`.
    pub fn new_at(data: T, now: i64, ttl_seconds: i64) -> (r: CachedData<T>)
        requires
            valid_now(now),
            valid_ttl(ttl_seconds),
        ensures
            r.data == data,
            r.cached_at == now,
            r.expires_at == now + ttl_seconds,
    {
        CachedData { data, cached_at: now, expires_at: now + ttl_seconds }
    }

    /// The entry for `data` cached now with time-to-live `ttl_seconds`.
    pub fn new(data: T, ttl_seconds: i64) -> (r: CachedData<T>)
        requires
            valid_ttl(ttl_seconds),
        ensures
            r.data == data,
            valid_now(r.cached_at),
            r.expires_at == r.cached_at + ttl_seconds,
    {
        let now = now_unix_seconds();
        Self::new_at(data, now, ttl_seconds)
    }

    pub fn is_expired_at(&self, now: i64) -> (r: bool)
        ensures
            r == self.expired_at(now as int),
    {
        now > self.expires_at
    }

    /// Whether the entry is stale at the current time.
    pub fn is_expired(&self) -> (r: bool)
        ensures
            exists|now: i64| valid_now(now) && r == self.expired_at(now as int),
    {
        let now = now_unix_seconds();
        self.is_expired_at(now)
    }

    /// Seconds elapsed between caching and `now`.
    pub fn age_at(&self, now: i64) -> (r: i64)
        requires
            i64::MIN <= now - self.cached_at <= i64::MAX,
        ensures
            r == now - self.cached_at,
    {
        now - self.cached_at
    }
}

/// The logical resources the cache holds, with the parameters that decide
/// their content.
#[derive(Debug, Clone, Copy, PartialEq, Eq, Structural)]
pub enum CacheKey {
    Pets,
    Devices,
    FeedingHistory { pet_id: u32, from: i64, to: i64 },
    DrinkingHistory { pet_id: u32, from: i64, to: i64 },
    ActivityHistory { pet_id: u32, from: i64, to: i64 },
}

/// The calendar date `YYYYMMDD` (UTC) of a timestamp, as the calendar library
/// renders it.
pub uninterp spec fn utc_ymd(ts: int) -> Seq<char>;

/// Relies on `chrono::DateTime::from_timestamp`, which gives a value for every
/// timestamp within the calendar's years, and on its `format("%Y%m%d")`.
#[verifier::external_body]
fn format_utc_ymd(ts: i64) -> (r: String)
    requires
        -DATE_LIMIT <= ts <= DATE_LIMIT,
    ensures
        r@ == utc_ymd(ts as int),
{
    chrono::DateTime::from_timestamp(ts, 0).unwrap().format("%Y%m%d").to_string()
}

/// The file name of a history entry.
pub open spec fn history_file_name(kind: Seq<char>, pet_id: u32, from: i64, to: i64) -> Seq<char> {
    kind + "_history_"@ + decimal_digits(pet_id as nat) + "_"@ + utc_ymd(from as int) + "_to_"@
        + utc_ymd(to as int) + ".json"@
}

impl CacheKey {
    /// The dates of a history key can be rendered.
    pub open spec fn renderable(&self) -> bool {
        match *self {
            CacheKey::FeedingHistory { from, to, .. } | CacheKey::DrinkingHistory { from, to, .. }
            | CacheKey::ActivityHistory { from, to, .. } => -DATE_LIMIT <= from <= DATE_LIMIT
                && -DATE_LIMIT <= to <= DATE_LIMIT,
            _ => true,
        }
    }

    pub open spec fn spec_file_name(&self) -> Seq<char> {
        match *self {
            CacheKey::Pets => "pets.json"@,
            CacheKey::Devices => "devices.json"@,
            CacheKey::FeedingHistory { pet_id, from, to } => history_file_name(
                "feeding"@,
                pet_id,
                from,
                to,
            ),
            CacheKey::DrinkingHistory { pet_id, from, to } => history_file_name(
                "drinking"@,
                pet_id,
                from,
                to,
            ),
            CacheKey::ActivityHistory { pet_id, from, to } => history_file_name(
                "activity"@,
                pet_id,
                from,
                to,
            ),
        }
    }

    /// The name of the file that holds this key's entry.
    pub fn file_name(&self) -> (r: String)
        requires
            self.renderable(),
        ensures
            r@ == self.spec_file_name(),
    {
        match *self {
            CacheKey::Pets => String::from_str("pets.json"),
            CacheKey::Devices => String::from_str("devices.json"),
            CacheKey::FeedingHistory { pet_id, from, to } => history_name("feeding", pet_id, from, to),
            CacheKey::DrinkingHistory { pet_id, from, to } => history_name("drinking", pet_id, from, to),
            CacheKey::ActivityHistory { pet_id, from, to } => history_name("activity", pet_id, from, to),
        }
    }
}

fn history_name(kind: &str, pet_id: u32, from: i64, to: i64) -> (r: String)
    requires
        -DATE_LIMIT <= from <= DATE_LIMIT,
        -DATE_LIMIT <= to <= DATE_LIMIT,
    ensures
        r@ == history_file_name(kind@, pet_id, from, to),
{
    let mut s = String::from_str(kind);
    s.append("_history_");
    let id = decimal(pet_id as u64);
    s.append(id.as_str());
    s.append("_");
    let f = format_utc_ymd(from);
    s.append(f.as_str());
    s.append("_to_");
    let t = format_utc_ymd(to);
    s.append(t.as_str());
    s.append(".json");
    s
}

/// The entry stored under `k`: the last one with that key.
pub open spec fn lookup<T>(entries: Seq<(CacheKey, CachedData<T>)>, k: CacheKey) -> Option<CachedData<T>>
    decreases entries.len(),
{
    if entries.len() == 0 {
        None
    } else if entries.last().0 == k {
        Some(entries.last().1)
    } else {
        lookup(entries.drop_last(), k)
    }
}

/// No key occurs twice.
pub open spec fn keys_unique<T>(entries: Seq<(CacheKey, CachedData<T>)>) -> bool {
    forall|i: int, j: int| 0 <= i < j < entries.len() ==> #[trigger] entries[i].0 != #[trigger] entries[j].0
}

/// What a fresh read returns: the entry, unless it is stale at `now`.
pub open spec fn fresh_lookup<T>(entries: Seq<(CacheKey, CachedData<T>)>, k: CacheKey, now: int) -> Option<
    CachedData<T>,
> {
    match lookup(entries, k) {
        Some(e) => if e.expired_at(now) {
            None
        } else {
            Some(e)
        },
        None => None,
    }
}

/// The value behind an optional reference.
pub open spec fn owned<A>(o: Option<&A>) -> Option<A> {
    match o {
        Some(x) => Some(*x),
        None => None,
    }
}

/// The cached entries of one payload type, at most one per key, and the
/// time-to-live given to new entries.
pub struct CacheStore<T> {
    entries: Vec<(CacheKey, CachedData<T>)>,
    ttl_seconds: i64,
}

impl<T> View for CacheStore<T> {
    type V = Seq<(CacheKey, CachedData<T>)>;

    closed spec fn view(&self) -> Seq<(CacheKey, CachedData<T>)> {
        self.entries@
    }
}

impl<T> CacheStore<T> {
    pub closed spec fn ttl(&self) -> i64 {
        self.ttl_seconds
    }

    pub open spec fn wf(&self) -> bool {
        &&& keys_unique(self@)
        &&& valid_ttl(self.ttl())
    }

    /// The entry under `k`, stale or not.
    pub open spec fn entry(&self, k: CacheKey) -> Option<CachedData<T>> {
        lookup(self@, k)
    }

    /// An empty store whose new entries live `ttl_seconds`.
    pub fn new(ttl_seconds: i64) -> (r: CacheStore<T>)
        requires
            valid_ttl(ttl_seconds),
        ensures
            r@ == Seq::<(CacheKey, CachedData<T>)>::empty(),
            r.ttl() == ttl_seconds,
            r.wf(),
    {
        CacheStore { entries: Vec::new(), ttl_seconds }
    }

    pub fn ttl_seconds(&self) -> (r: i64)
        ensures
            r == self.ttl(),
    {
        self.ttl_seconds
    }

    pub fn len(&self) -> (r: usize)
        ensures
            r == self@.len(),
    {
        self.entries.len()
    }

    fn position(&self, key: &CacheKey) -> (r: Option<usize>)
        requires
            self.wf(),
        ensures
            match r {
                Some(i) => i < self@.len() && self@[i as int].0 == *key && self.entry(*key) == Some(
                    self@[i as int].1,
                ),
                None => self.entry(*key) is None && forall|j: int|
                    0 <= j < self@.len() ==> #[trigger] self@[j].0 != *key,
            },
    {
        let n = self.entries.len();
        let mut i: usize = 0;
        while i < n
            invariant
                0 <= i <= n == self@.len(),
                self.wf(),
                forall|j: int| 0 <= j < i ==> #[trigger] self@[j].0 != *key,
            decreases n - i,
        {
            if self.entries[i].0 == *key {
                proof {
                    lemma_lookup_unique(self@, i as int);
                }
                return Some(i);
            }
            i = i + 1;
        }
        proof {
            lemma_lookup_absent(self@, *key);
        }
        None
    }

    /// The entry under `key` if it is not stale at `now`.
    pub fn get_fresh_at(&self, key: &CacheKey, now: i64) -> (r: Option<&CachedData<T>>)
        requires
            self.wf(),
        ensures
            owned(r) == fresh_lookup(self@, *key, now as int),
    {
        match self.position(key) {
            Some(i) => {
                let e = &self.entries[i].1;
                if e.is_expired_at(now) {
                    None
                } else {
                    Some(e)
                }
            },
            None => None,
        }
    }

    /// The entry under `key` if it is not stale now.
    pub fn get_fresh(&self, key: &CacheKey) -> (r: Option<&CachedData<T>>)
        requires
            self.wf(),
        ensures
            exists|now: i64| valid_now(now) && owned(r) == fresh_lookup(self@, *key, now as int),
    {
        let now = now_unix_seconds();
        self.get_fresh_at(key, now)
    }

    /// The entry under `key`, stale or not: what a read falls back on when
    /// the remote service cannot be reached.
    pub fn get_fallback(&self, key: &CacheKey) -> (r: Option<&CachedData<T>>)
        requires
            self.wf(),
        ensures
            owned(r) == self.entry(*key),
    {
        match self.position(key) {
            Some(i) => Some(&self.entries[i].1),
            None => None,
        }
    }

    /// Stores `entry` under `key`, replacing what was there.
    pub fn insert(&mut self, key: CacheKey, entry: CachedData<T>)
        requires
            old(self).wf(),
        ensures
            final(self).wf(),
            final(self).ttl() == old(self).ttl(),
            final(self).entry(key) == Some(entry),
            forall|k: CacheKey| k != key ==> #[trigger] final(self).entry(k) == old(self).entry(k),
    {
        match self.position(&key) {
            Some(i) => {
                let ghost before = self@;
                self.entries.set(i, (key, entry));
                proof {
                    lemma_lookup_replace(before, i as int, (key, entry));
                }
            },
            None => {
                let ghost before = self@;
                self.entries.push((key, entry));
                proof {
                    assert(self@.drop_last() =~= before);
                    assert forall|k: CacheKey| k != key implies #[trigger] lookup(self@, k) == lookup(before, k) by {}
                }
            },
        }
    }

    /// Caches `data` under `key` as taken at `now`, with the store's
    /// time-to-live.
    pub fn put_at(&mut self, key: CacheKey, data: T, now: i64)
        requires
            old(self).wf(),
            valid_now(now),
        ensures
            final(self).wf(),
            final(self).ttl() == old(self).ttl(),
            final(self).entry(key) == Some(
                CachedData { data, cached_at: now, expires_at: (now + old(self).ttl()) as i64 },
            ),
            forall|k: CacheKey| k != key ==> #[trigger] final(self).entry(k) == old(self).entry(k),
    {
        let entry = CachedData::new_at(data, now, self.ttl_seconds);
        self.insert(key, entry);
    }

    /// Caches `data` under `key` as taken now.
    pub fn put(&mut self, key: CacheKey, data: T)
        requires
            old(self).wf(),
        ensures
            final(self).wf(),
            final(self).ttl() == old(self).ttl(),
            exists|now: i64|
                valid_now(now) && final(self).entry(key) == Some(
                    CachedData { data, cached_at: now, expires_at: (now + old(self).ttl()) as i64 },
                ),
            forall|k: CacheKey| k != key ==> #[trigger] final(self).entry(k) == old(self).entry(k),
    {
        let now = now_unix_seconds();
        self.put_at(key, data, now);
    }

    /// Drops every entry.
    pub fn purge_all(&mut self)
        ensures
            final(self)@ == Seq::<(CacheKey, CachedData<T>)>::empty(),
            final(self).ttl() == old(self).ttl(),
            old(self).wf() ==> final(self).wf(),
    {
        self.entries = Vec::new();
    }

    /// Drops the entries whose expiry time is before `now`; keeps the rest.
    pub fn purge_expired_at(&mut self, now: i64)
        requires
            old(self).wf(),
        ensures
            final(self).wf(),
            final(self).ttl() == old(self).ttl(),
            forall|k: CacheKey|
                #[trigger] final(self).entry(k) == match old(self).entry(k) {
                    Some(e) => if e.expires_at < now {
                        None
                    } else {
                        Some(e)
                    },
                    None => None,
                },
    {
        let mut rest: Vec<(CacheKey, CachedData<T>)> = Vec::new();
        std::mem::swap(&mut rest, &mut self.entries);
        let ghost orig = rest@;
        let n = rest.len();
        let mut i: usize = 0;
        while i < n
            invariant
                0 <= i <= n == orig.len(),
                orig == old(self)@,
                keys_unique(orig),
                rest@ == orig.skip(i as int),
                keys_unique(self@),
                self.ttl_seconds == old(self).ttl_seconds,
                forall|j: int|
                    0 <= j < self@.len() ==> exists|m: int| 0 <= m < i && #[trigger] self@[j] == orig[m],
                forall|m: int|
                    0 <= m < i && orig[m].1.expires_at >= now ==> exists|j: int|
                        0 <= j < self@.len() && #[trigger] self@[j] == orig[m],
                forall|j: int| 0 <= j < self@.len() ==> (#[trigger] self@[j]).1.expires_at >= now,
            decreases n - i,
        {
            let item = rest.remove(0);
            proof {
                assert(rest@ =~= orig.skip(i + 1));
                assert(item == orig[i as int]);
            }
            if item.1.expires_at >= now {
                let ghost before = self@;
                proof {
                    assert forall|j: int| 0 <= j < before.len() implies #[trigger] before[j].0 != item.0 by {
                        let m = choose|m: int| 0 <= m < i && before[j] == orig[m];
                        assert(orig[m].0 != orig[i as int].0);
                    }
                }
                self.entries.push(item);
                proof {
                    assert forall|j: int| 0 <= j < self@.len() implies exists|m: int|
                        0 <= m < i + 1 && #[trigger] self@[j] == orig[m] by {
                        if j < before.len() {
                            assert(self@[j] == before[j]);
                            let m = choose|m: int| 0 <= m < i && before[j] == orig[m];
                            assert(0 <= m < i + 1 && self@[j] == orig[m]);
                        } else {
                            assert(self@[j] == orig[i as int]);
                        }
                    }
                    assert forall|m: int| 0 <= m < i + 1 && orig[m].1.expires_at >= now implies exists|j: int|
                        0 <= j < self@.len() && #[trigger] self@[j] == orig[m] by {
                        if m < i {
                            let j = choose|j: int| 0 <= j < before.len() && before[j] == orig[m];
                            assert(self@[j] == before[j]);
                        } else {
                            assert(self@[before.len() as int] == orig[m]);
                        }
                    }
                }
            }
            i = i + 1;
        }
        proof {
            assert forall|k: CacheKey|
                #[trigger] lookup(self@, k) == match lookup(orig, k) {
                    Some(e) => if e.expires_at < now {
                        None
                    } else {
                        Some(e)
                    },
                    None => None,
                } by {
                lemma_lookup_filtered(orig, self@, k, now);
            }
        }
    }

    /// Drops the entries that are stale now.
    pub fn purge_expired(&mut self)
        requires
            old(self).wf(),
        ensures
            final(self).wf(),
            final(self).ttl() == old(self).ttl(),
            exists|now: i64|
                valid_now(now) && forall|k: CacheKey|
                    #[trigger] final(self).entry(k) == match old(self).entry(k) {
                        Some(e) => if e.expires_at < now {
                            None
                        } else {
                            Some(e)
                        },
                        None => None,
                    },
    {
        let now = now_unix_seconds();
        self.purge_expired_at(now);
    }
}

proof fn lemma_lookup_found<T>(entries: Seq<(CacheKey, CachedData<T>)>, i: int)
    requires
        0 <= i < entries.len(),
        forall|j: int| i < j < entries.len() ==> #[trigger] entries[j].0 != entries[i].0,
    ensures
        lookup(entries, entries[i].0) == Some(entries[i].1),
    decreases entries.len(),
{
    if i < entries.len() - 1 {
        let d = entries.drop_last();
        assert forall|j: int| i < j < d.len() implies #[trigger] d[j].0 != d[i].0 by {
            assert(d[j] == entries[j]);
        }
        lemma_lookup_found(d, i);
    }
}

proof fn lemma_lookup_unique<T>(entries: Seq<(CacheKey, CachedData<T>)>, i: int)
    requires
        0 <= i < entries.len(),
        keys_unique(entries),
    ensures
        lookup(entries, entries[i].0) == Some(entries[i].1),
{
    lemma_lookup_found(entries, i);
}

proof fn lemma_lookup_absent<T>(entries: Seq<(CacheKey, CachedData<T>)>, k: CacheKey)
    requires
        forall|j: int| 0 <= j < entries.len() ==> #[trigger] entries[j].0 != k,
    ensures
        lookup(entries, k) is None,
    decreases entries.len(),
{
    if entries.len() > 0 {
        let d = entries.drop_last();
        assert forall|j: int| 0 <= j < d.len() implies #[trigger] d[j].0 != k by {
            assert(d[j] == entries[j]);
        }
        lemma_lookup_absent(d, k);
    }
}

proof fn lemma_lookup_replace<T>(
    entries: Seq<(CacheKey, CachedData<T>)>,
    i: int,
    item: (CacheKey, CachedData<T>),
)
    requires
        0 <= i < entries.len(),
        keys_unique(entries),
        entries[i].0 == item.0,
    ensures
        keys_unique(entries.update(i, item)),
        lookup(entries.update(i, item), item.0) == Some(item.1),
        forall|k: CacheKey| k != item.0 ==> #[trigger] lookup(entries.update(i, item), k) == lookup(entries, k),
{
    let u = entries.update(i, item);
    assert forall|a: int, b: int| 0 <= a < b < u.len() implies #[trigger] u[a].0 != #[trigger] u[b].0 by {
        assert(entries[a].0 != entries[b].0);
    }
    lemma_lookup_unique(u, i);
    assert forall|k: CacheKey| k != item.0 implies #[trigger] lookup(u, k) == lookup(entries, k) by {
        if exists|j: int| 0 <= j < entries.len() && entries[j].0 == k {
            let j = choose|j: int| 0 <= j < entries.len() && entries[j].0 == k;
            lemma_lookup_unique(entries, j);
            lemma_lookup_unique(u, j);
        } else {
            lemma_lookup_absent(entries, k);
            assert forall|j: int| 0 <= j < u.len() implies #[trigger] u[j].0 != k by {
                if j != i {
                    assert(u[j] == entries[j]);
                }
            }
            lemma_lookup_absent(u, k);
        }
    }
}

/// An item of `kept` comes from `orig`; if no item of `orig` with key `k`
/// expires at or after `now`, no item of `kept` has key `k`.
proof fn lemma_kept_lacks<T>(
    orig: Seq<(CacheKey, CachedData<T>)>,
    kept: Seq<(CacheKey, CachedData<T>)>,
    k: CacheKey,
    now: i64,
)
    requires
        forall|j: int| 0 <= j < kept.len() ==> exists|m: int| 0 <= m < orig.len() && #[trigger] kept[j] == orig[m],
        forall|j: int| 0 <= j < kept.len() ==> (#[trigger] kept[j]).1.expires_at >= now,
        forall|m: int| 0 <= m < orig.len() && (#[trigger] orig[m]).0 == k ==> orig[m].1.expires_at < now,
    ensures
        lookup(kept, k) is None,
{
    assert forall|j: int| 0 <= j < kept.len() implies #[trigger] kept[j].0 != k by {
        let m = choose|m: int| 0 <= m < orig.len() && kept[j] == orig[m];
        assert(kept[j].1.expires_at >= now);
    }
    lemma_lookup_absent(kept, k);
}

/// `kept` holds exactly the items of `orig` (unique keys) that expire at or
/// after `now`.
#[verifier::rlimit(50)]
proof fn lemma_lookup_filtered<T>(
    orig: Seq<(CacheKey, CachedData<T>)>,
    kept: Seq<(CacheKey, CachedData<T>)>,
    k: CacheKey,
    now: i64,
)
    requires
        keys_unique(orig),
        keys_unique(kept),
        forall|j: int| 0 <= j < kept.len() ==> exists|m: int| 0 <= m < orig.len() && #[trigger] kept[j] == orig[m],
        forall|m: int|
            0 <= m < orig.len() && orig[m].1.expires_at >= now ==> exists|j: int|
                0 <= j < kept.len() && #[trigger] kept[j] == orig[m],
        forall|j: int| 0 <= j < kept.len() ==> (#[trigger] kept[j]).1.expires_at >= now,
    ensures
        lookup(kept, k) == match lookup(orig, k) {
            Some(e) => if e.expires_at < now {
                None
            } else {
                Some(e)
            },
            None => None,
        },
{
    if exists|m: int| 0 <= m < orig.len() && orig[m].0 == k {
        let m = choose|m: int| 0 <= m < orig.len() && orig[m].0 == k;
        lemma_lookup_unique(orig, m);
        if orig[m].1.expires_at >= now {
            let j = choose|j: int| 0 <= j < kept.len() && #[trigger] kept[j] == orig[m];
            lemma_lookup_unique(kept, j);
        } else {
            assert forall|m2: int| 0 <= m2 < orig.len() && (#[trigger] orig[m2]).0 == k implies orig[m2].1.expires_at < now by {
                if m2 != m {
                    assert(orig[m2].0 != orig[m].0);
                }
            }
            lemma_kept_lacks(orig, kept, k, now);
        }
    } else {
        lemma_lookup_absent(orig, k);
        lemma_kept_lacks(orig, kept, k, now);
    }
}


/// What one cache file says of itself: its expiry time when it could be read,
/// and its size in bytes.
#[derive(Debug, Clone, Copy)]
pub struct CacheFileInfo {
    pub expires_at: Option<i64>,
    pub size: u64,
}

/// A file counts as stale when it cannot be read or its entry has expired.
pub open spec fn file_is_stale(f: CacheFileInfo, now: int) -> bool {
    match f.expires_at {
        Some(e) => now > e,
        None => true,
    }
}

/// Whether a cache file counts as stale at `now`.
pub fn file_is_stale_at(f: &CacheFileInfo, now: i64) -> (r: bool)
    ensures
        r == file_is_stale(*f, now as int),
{
    match f.expires_at {
        Some(e) => now > e,
        None => true,
    }
}

pub open spec fn count_stale(files: Seq<CacheFileInfo>, now: int) -> nat
    decreases files.len(),
{
    if files.len() == 0 {
        0
    } else {
        count_stale(files.drop_last(), now) + if file_is_stale(files.last(), now) {
            1nat
        } else {
            0nat
        }
    }
}

pub open spec fn total_size_of(files: Seq<CacheFileInfo>) -> nat
    decreases files.len(),
{
    if files.len() == 0 {
        0
    } else {
        total_size_of(files.drop_last()) + files.last().size as nat
    }
}

proof fn lemma_count_stale_bound(files: Seq<CacheFileInfo>, now: int)
    ensures
        count_stale(files, now) <= files.len(),
    decreases files.len(),
{
    if files.len() > 0 {
        lemma_count_stale_bound(files.drop_last(), now);
    }
}

proof fn lemma_total_size_prefix(files: Seq<CacheFileInfo>, i: int)
    requires
        0 <= i <= files.len(),
    ensures
        total_size_of(files.take(i)) <= total_size_of(files),
    decreases files.len() - i,
{
    if i < files.len() {
        lemma_total_size_prefix(files, i + 1);
        assert(files.take(i + 1).drop_last() =~= files.take(i));
    } else {
        assert(files.take(i) =~= files);
    }
}

/// Diagnostic counts over the cache directory.
#[derive(Debug, Clone, Copy)]
pub struct CacheStats {
    pub total_files: u32,
    pub expired_files: u32,
    pub total_size: u64,
}

impl CacheStats {
    /// The stale files are among all files.
    pub open spec fn wf(&self) -> bool {
        self.expired_files <= self.total_files
    }

    /// Counts over no files.
    pub fn new() -> (r: CacheStats)
        ensures
            r.total_files == 0,
            r.expired_files == 0,
            r.total_size == 0,
    {
        CacheStats { total_files: 0, expired_files: 0, total_size: 0 }
    }

    /// Files that are not stale.
    pub fn active_files(&self) -> (r: u32)
        requires
            self.wf(),
        ensures
            r == self.total_files - self.expired_files,
    {
        self.total_files - self.expired_files
    }

    /// Counts over `files`, judging staleness at `now`.
    pub fn tally_at(files: &Vec<CacheFileInfo>, now: i64) -> (r: CacheStats)
        requires
            files@.len() <= u32::MAX,
            total_size_of(files@) <= u64::MAX,
        ensures
            r.wf(),
            r.total_files == files@.len(),
            r.expired_files == count_stale(files@, now as int),
            r.total_size == total_size_of(files@),
    {
        let mut r = CacheStats::new();
        let n = files.len();
        let mut i: usize = 0;
        while i < n
            invariant
                0 <= i <= n == files@.len() <= u32::MAX,
                total_size_of(files@) <= u64::MAX,
                r.total_files == i,
                r.expired_files == count_stale(files@.take(i as int), now as int),
                r.expired_files <= i,
                r.total_size == total_size_of(files@.take(i as int)),
            decreases n - i,
        {
            proof {
                assert(files@.take(i + 1).drop_last() =~= files@.take(i as int));
                lemma_total_size_prefix(files@, i + 1);
            }
            let f = files[i];
            r.total_files = r.total_files + 1;
            r.total_size = r.total_size + f.size;
            if file_is_stale_at(&f, now) {
                r.expired_files = r.expired_files + 1;
            }
            i = i + 1;
        }
        proof {
            assert(files@.take(n as int) =~= files@);
        }
        r
    }
}

/// Freshness after a write: for a time-to-live `ttl > 0`, once `k` holds the
/// entry for `data` written at `now`, a fresh read at `now` returns it, a
/// fresh read at any time strictly after `now + ttl` returns nothing, and the
/// fallback read returns it whatever the time.
pub proof fn lemma_fresh_then_stale<T>(
    entries: Seq<(CacheKey, CachedData<T>)>,
    k: CacheKey,
    data: T,
    now: i64,
    ttl: i64,
)
    requires
        ttl > 0,
        lookup(entries, k) == Some(
            CachedData { data, cached_at: now, expires_at: (now + ttl) as i64 },
        ),
        now + ttl <= i64::MAX,
    ensures
        fresh_lookup(entries, k, now as int) == Some(
            CachedData { data, cached_at: now, expires_at: (now + ttl) as i64 },
        ),
        forall|later: int| later > now + ttl ==> #[trigger] fresh_lookup(entries, k, later) is None,
        lookup(entries, k) is Some,
{
}

} // verus!

