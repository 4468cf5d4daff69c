//! Request fingerprints and a cache of probe results whose entries expire
//! after a time-to-live.
use vstd::prelude::*;
use crate::clock::now_millis;
use crate::text::{decimal, format_decimal};

verus! {

/// The 64-bit digest that std's default hasher gives a parameter string.
pub uninterp spec fn params_digest(params: Seq<char>) -> u64;

/// Relies on `std::collections::hash_map::DefaultHasher`: every hasher made by
/// `DefaultHasher::new` starts from the same state, so the digest depends on
/// the string alone.
#[verifier::external_body]
fn hash_params(params: &str) -> (r: u64)
    ensures
        r == params_digest(params@),
{
    let mut hasher = std::collections::hash_map::DefaultHasher::new();
    std::hash::Hash::hash(params, &mut hasher);
    std::hash::Hasher::finish(&hasher)
}

/// The cache key of a request: `METHOD:URL:DIGEST`.
pub open spec fn fingerprint_key(method: Seq<char>, url: Seq<char>, digest: u64) -> Seq<char> {
    method + ":"@ + url + ":"@ + decimal(digest as nat)
}

/// Identity of a request for deduplication.
#[derive(Clone, Debug)]
pub struct RequestFingerprint {
    pub url: String,
    pub method: String,
    pub params_hash: u64,
}

impl RequestFingerprint {
    pub fn new(url: &str, method: &str, params: &str) -> (r: RequestFingerprint)
        ensures
            r.url@ == url@,
            r.method@ == method@,
            r.params_hash == params_digest(params@),
    {
        RequestFingerprint {
            url: String::from_str(url),
            method: String::from_str(method),
            params_hash: hash_params(params),
        }
    }

    pub open spec fn key_view(&self) -> Seq<char> {
        fingerprint_key(self.method@, self.url@, self.params_hash)
    }

    pub fn key(&self) -> (r: String)
        ensures
            r@ == self.key_view(),
    {
        let mut k = self.method.clone();
        k.append(":");
        k.append(self.url.as_str());
        k.append(":");
        let d = format_decimal(self.params_hash);
        k.append(d.as_str());
        k
    }
}

/// Fingerprints built from the same method, URL and parameters have the same key.
pub proof fn lemma_fingerprint_stable(a: RequestFingerprint, b: RequestFingerprint, params: Seq<char>)
    requires
        a.url@ == b.url@,
        a.method@ == b.method@,
        a.params_hash == params_digest(params),
        b.params_hash == params_digest(params),
    ensures
        a.key_view() == b.key_view(),
{
}

/// A cached result and the time, in milliseconds, at which it was stored.
#[derive(Clone, Debug)]
pub struct CachedResult {
    pub timestamp_ms: u64,
    pub result: String,
}

/// Entry stored at `created` is still valid at `now` under a time-to-live of
/// `ttl_secs` seconds; a clock that went back counts as no time elapsed.
pub open spec fn is_live(created: u64, now: u64, ttl_secs: u64) -> bool {
    (if now >= created { now - created } else { 0int }) < ttl_secs * 1000
}

pub fn entry_is_live(created: u64, now: u64, ttl_secs: u64) -> (r: bool)
    ensures
        r == is_live(created, now, ttl_secs),
{
    let elapsed: u64 = if now >= created { now - created } else { 0 };
    (elapsed as u128) < (ttl_secs as u128) * 1000
}

#[verifier::external_type_specification]
#[verifier::external_body]
#[verifier::reject_recursive_types(K)]
#[verifier::reject_recursive_types(V)]
#[verifier::reject_recursive_types(S)]
pub struct ExDashMap<K, V, S>(dashmap::DashMap<K, V, S>);

pub type EntryMap = dashmap::DashMap<String, CachedResult>;

/// Key to (creation time in milliseconds, result).
pub type EntriesView = Map<Seq<char>, (u64, Seq<char>)>;

pub open spec fn no_entries() -> EntriesView {
    Map::empty()
}

/// What a cache map holds: key to (creation time, result).
pub uninterp spec fn entries_of(m: EntryMap) -> Map<Seq<char>, (u64, Seq<char>)>;

/// Relies on `DashMap::new`: an empty map.
#[verifier::external_body]
fn map_new() -> (r: EntryMap)
    ensures
        entries_of(r) == no_entries(),
{
    dashmap::DashMap::new()
}

/// Relies on `DashMap::insert`: sets the value of `k`, replacing any other.
#[verifier::external_body]
fn map_insert(m: &mut EntryMap, k: String, v: CachedResult)
    ensures
        entries_of(*final(m)) == entries_of(*old(m)).insert(k@, (v.timestamp_ms, v.result@)),
{
    m.insert(k, v);
}

/// Relies on `DashMap::get`: a copy of the value of `k`, if any.
#[verifier::external_body]
fn map_get(m: &EntryMap, k: &str) -> (r: Option<CachedResult>)
    ensures
        match r {
            Some(v) => entries_of(*m).contains_key(k@) && entries_of(*m)[k@] == (v.timestamp_ms, v.result@),
            None => !entries_of(*m).contains_key(k@),
        },
{
    m.get(k).map(|e| e.value().clone())
}

/// Relies on `DashMap::remove`: drops the entry of `k`, if any.
#[verifier::external_body]
fn map_remove(m: &mut EntryMap, k: &str)
    ensures
        entries_of(*final(m)) == entries_of(*old(m)).remove(k@),
{
    m.remove(k);
}

/// Relies on `DashMap::retain`: keeps the entries still live at `now`.
#[verifier::external_body]
fn map_retain_live(m: &mut EntryMap, now: u64, ttl_secs: u64)
    ensures
        entries_of(*final(m)) == entries_of(*old(m)).restrict(
            entries_of(*old(m)).dom().filter(
                |k: Seq<char>| is_live(entries_of(*old(m))[k].0, now, ttl_secs),
            ),
        ),
{
    m.retain(|_, v| entry_is_live(v.timestamp_ms, now, ttl_secs));
}

/// Relies on `DashMap::len`: the number of entries.
#[verifier::external_body]
fn map_len(m: &EntryMap) -> (r: usize)
    ensures
        r as int == if entries_of(*m).dom().finite() {
            entries_of(*m).dom().len() as int
        } else {
            -1
        },
{
    m.len()
}

/// Relies on `DashMap::iter`: every key once, in no promised order.
#[verifier::external_body]
fn map_keys(m: &EntryMap) -> (r: Vec<String>)
    ensures
        r@.map_values(|k: String| k@).no_duplicates(),
        r@.map_values(|k: String| k@).to_set() == entries_of(*m).dom(),
{
    m.iter().map(|e| e.key().clone()).collect()
}

/// Relies on `DashMap::clear`: removes every entry.
#[verifier::external_body]
fn map_clear(m: &mut EntryMap)
    ensures
        entries_of(*final(m)) == no_entries(),
{
    m.clear();
}

/// Counts of a cache's entries at one instant.
#[derive(Debug, Clone)]
pub struct CacheStats {
    pub total_entries: usize,
    pub expired_entries: usize,
    pub active_entries: usize,
}

/// The value of `key` is cached and still live at `now`.
pub open spec fn holds_live(m: Map<Seq<char>, (u64, Seq<char>)>, key: Seq<char>, now: u64, ttl_secs: u64) -> bool {
    m.contains_key(key) && is_live(m[key].0, now, ttl_secs)
}

/// What a lookup of `key` at `now` does: a live entry is returned and kept;
/// anything else is a miss, and an expired entry is dropped.
pub open spec fn lookup_done(
    before: EntriesView,
    after: EntriesView,
    key: Seq<char>,
    now: u64,
    ttl_secs: u64,
    r: Option<String>,
) -> bool {
    if holds_live(before, key, now, ttl_secs) {
        r is Some && r->Some_0@ == before[key].1 && after == before
    } else {
        r is None && after == before.remove(key)
    }
}

/// What a cleanup at `now` does: exactly the live entries stay, unchanged.
pub open spec fn cleaned(before: EntriesView, after: EntriesView, now: u64, ttl_secs: u64) -> bool {
    &&& forall|k: Seq<char>| #[trigger] after.contains_key(k) <==> holds_live(before, k, now, ttl_secs)
    &&& forall|k: Seq<char>| after.contains_key(k) ==> #[trigger] after[k] == before[k]
}

/// Probe results by request fingerprint, valid for a time-to-live.
pub struct ScanCache {
    cache: EntryMap,
    ttl_secs: u64,
}

impl ScanCache {
    pub closed spec fn entries(&self) -> Map<Seq<char>, (u64, Seq<char>)> {
        entries_of(self.cache)
    }

    pub closed spec fn ttl(&self) -> u64 {
        self.ttl_secs
    }

    pub fn new(ttl_seconds: u64) -> (r: ScanCache)
        ensures
            r.entries() == no_entries(),
            r.ttl() == ttl_seconds,
    {
        ScanCache { cache: map_new(), ttl_secs: ttl_seconds }
    }

    pub fn ttl_seconds(&self) -> (r: u64)
        ensures
            r == self.ttl(),
    {
        self.ttl_secs
    }

    /// A cache whose entries live for an hour.
    pub fn default() -> (r: ScanCache)
        ensures
            r.entries() == no_entries(),
            r.ttl() == 3600,
    {
        ScanCache::new(3600)
    }

    /// The cached result for `fingerprint` when it is live at `now`; an
    /// expired entry is removed and reported as a miss.
    pub fn get_at(&mut self, fingerprint: &RequestFingerprint, now: u64) -> (r: Option<String>)
        ensures
            final(self).ttl() == old(self).ttl(),
            lookup_done(old(self).entries(), final(self).entries(), fingerprint.key_view(), now, old(self).ttl(), r),
    {
        let key = fingerprint.key();
        match map_get(&self.cache, key.as_str()) {
            Some(entry) => {
                if entry_is_live(entry.timestamp_ms, now, self.ttl_secs) {
                    Some(entry.result)
                } else {
                    map_remove(&mut self.cache, key.as_str());
                    None
                }
            },
            None => {
                proof {
                    assert(self.entries().remove(fingerprint.key_view()) =~= self.entries());
                }
                None
            },
        }
    }

    /// `get_at` at the current time.
    pub fn get(&mut self, fingerprint: &RequestFingerprint) -> (r: Option<String>)
        ensures
            final(self).ttl() == old(self).ttl(),
            exists|t: u64|
                lookup_done(old(self).entries(), final(self).entries(), fingerprint.key_view(), t, old(self).ttl(), r),
    {
        let now = now_millis();
        self.get_at(fingerprint, now)
    }

    /// Stores `result` for `fingerprint` as created at `now`, replacing any
    /// earlier entry.
    pub fn insert_at(&mut self, fingerprint: &RequestFingerprint, result: String, now: u64)
        ensures
            final(self).ttl() == old(self).ttl(),
            final(self).entries() == old(self).entries().insert(fingerprint.key_view(), (now, result@)),
    {
        let key = fingerprint.key();
        map_insert(&mut self.cache, key, CachedResult { timestamp_ms: now, result });
    }

    /// `insert_at` at the current time.
    pub fn insert(&mut self, fingerprint: &RequestFingerprint, result: String)
        ensures
            final(self).ttl() == old(self).ttl(),
            exists|t: u64| final(self).entries() == old(self).entries().insert(fingerprint.key_view(), (t, result@)),
    {
        let now = now_millis();
        self.insert_at(fingerprint, result, now);
    }

    /// Whether a live entry for `fingerprint` exists at `now`.
    pub fn contains_at(&self, fingerprint: &RequestFingerprint, now: u64) -> (r: bool)
        ensures
            r == holds_live(self.entries(), fingerprint.key_view(), now, self.ttl()),
    {
        let key = fingerprint.key();
        match map_get(&self.cache, key.as_str()) {
            Some(entry) => entry_is_live(entry.timestamp_ms, now, self.ttl_secs),
            None => false,
        }
    }

    /// `contains_at` at the current time.
    pub fn contains(&self, fingerprint: &RequestFingerprint) -> (r: bool)
        ensures
            exists|t: u64| r == holds_live(self.entries(), fingerprint.key_view(), t, self.ttl()),
    {
        let now = now_millis();
        self.contains_at(fingerprint, now)
    }

    /// Drops every entry that is no longer live at `now`.
    pub fn cleanup_at(&mut self, now: u64)
        ensures
            final(self).ttl() == old(self).ttl(),
            cleaned(old(self).entries(), final(self).entries(), now, old(self).ttl()),
    {
        map_retain_live(&mut self.cache, now, self.ttl_secs);
    }

    /// `cleanup_at` at the current time.
    pub fn cleanup(&mut self)
        ensures
            final(self).ttl() == old(self).ttl(),
            exists|t: u64| cleaned(old(self).entries(), final(self).entries(), t, old(self).ttl()),
    {
        let now = now_millis();
        self.cleanup_at(now);
    }

    /// Entry counts at `now`; the cache is left as it is. The expired count
    /// is that of the expired keys in a listing of every key once.
    pub fn stats_at(&self, now: u64) -> (r: CacheStats)
        ensures
            r.total_entries == self.entries().dom().len(),
            exists|ks: Seq<Seq<char>>|
                {
                    &&& ks.no_duplicates()
                    &&& ks.to_set() == self.entries().dom()
                    &&& r.expired_entries == ks.filter(|k: Seq<char>| !is_live(self.entries()[k].0, now, self.ttl())).len()
                },
            r.active_entries == r.total_entries - r.expired_entries,
    {
        let total = map_len(&self.cache);
        let keys = map_keys(&self.cache);
        let ghost kv = keys@.map_values(|k: String| k@);
        let ghost p = |k: Seq<char>| !is_live(self.entries()[k].0, now, self.ttl());
        let mut expired: usize = 0;
        let mut i: usize = 0;
        proof {
            kv.unique_seq_to_set();
            reveal(Seq::filter);
            assert(kv.subrange(0, 0).filter(p) =~= Seq::<Seq<char>>::empty());
        }
        while i < keys.len()
            invariant
                0 <= i <= keys@.len(),
                kv == keys@.map_values(|k: String| k@),
                kv.len() == total,
                p == (|k: Seq<char>| !is_live(self.entries()[k].0, now, self.ttl())),
                kv.to_set() == self.entries().dom(),
                expired as int == kv.subrange(0, i as int).filter(p).len(),
                expired <= i,
            decreases keys@.len() - i,
        {
            proof {
                reveal(Seq::filter);
                assert(kv.subrange(0, i + 1).drop_last() =~= kv.subrange(0, i as int));
                assert(kv.contains(kv[i as int]));
            }
            match map_get(&self.cache, keys[i].as_str()) {
                Some(entry) => {
                    if !entry_is_live(entry.timestamp_ms, now, self.ttl_secs) {
                        expired = expired + 1;
                    }
                },
                None => {},
            }
            i += 1;
        }
        proof {
            assert(kv.subrange(0, kv.len() as int) =~= kv);
        }
        CacheStats { total_entries: total, expired_entries: expired, active_entries: total - expired }
    }

    /// `stats_at` at the current time.
    pub fn stats(&self) -> (r: CacheStats)
        ensures
            r.total_entries == self.entries().dom().len(),
            r.active_entries == r.total_entries - r.expired_entries,
    {
        let now = now_millis();
        self.stats_at(now)
    }

    /// Empties the cache.
    pub fn clear(&mut self)
        ensures
            final(self).ttl() == old(self).ttl(),
            final(self).entries() == no_entries(),
    {
        map_clear(&mut self.cache);
    }
}

/// An entry stored at `created` is reported by `contains_at` and `get_at`
/// until `ttl_secs` seconds have passed, and never after.
pub proof fn lemma_ttl_expiry(
    m: Map<Seq<char>, (u64, Seq<char>)>,
    key: Seq<char>,
    result: Seq<char>,
    created: u64,
    now: u64,
    ttl_secs: u64,
)
    ensures
        now >= created && now - created >= ttl_secs * 1000 ==> !holds_live(
            m.insert(key, (created, result)),
            key,
            now,
            ttl_secs,
        ),
        now >= created && now - created < ttl_secs * 1000 ==> holds_live(
            m.insert(key, (created, result)),
            key,
            now,
            ttl_secs,
        ),
{
}

} // verus!
