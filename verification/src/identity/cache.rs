//! A memory cache of DID documents with a staleness and an expiry age.
use vstd::prelude::*;
use crate::identity::common::{DAY, HOUR};
use crate::identity::types::{DidDocument, DidDocumentView};
use crate::text::str_eq;

verus! {

/// A cached document and the time it was stored, in microseconds since the
/// Unix epoch.
pub struct CacheVal {
    pub doc: DidDocument,
    pub updated_at: u128,
}

/// The plain content of a cached document.
pub struct CacheValView {
    pub doc: DidDocumentView,
    pub updated_at: u128,
}

impl View for CacheVal {
    type V = CacheValView;

    open spec fn view(&self) -> CacheValView {
        CacheValView { doc: self.doc@, updated_at: self.updated_at }
    }
}

/// What a lookup found: the document, when it was stored, and whether it is
/// past the staleness age and past the expiry age.
pub struct CacheResult {
    pub did: String,
    pub doc: DidDocument,
    pub updated_at: u128,
    pub stale: bool,
    pub expired: bool,
}

/// The plain content of a lookup result.
pub struct CacheResultView {
    pub did: Seq<char>,
    pub doc: DidDocumentView,
    pub updated_at: u128,
    pub stale: bool,
    pub expired: bool,
}

impl View for CacheResult {
    type V = CacheResultView;

    open spec fn view(&self) -> CacheResultView {
        CacheResultView {
            did: self.did@,
            doc: self.doc@,
            updated_at: self.updated_at,
            stale: self.stale,
            expired: self.expired,
        }
    }
}

/// The plain content of a cache: its two ages, in microseconds, and the
/// document stored under each DID.
pub struct DidCacheView {
    pub stale_ttl: u128,
    pub max_ttl: u128,
    pub entries: Map<Seq<char>, CacheValView>,
}

impl DidCacheView {
    /// The cache after storing `doc` under `did` at time `now`.
    pub open spec fn cached(self, did: Seq<char>, doc: DidDocumentView, now: u128) -> DidCacheView {
        DidCacheView { entries: self.entries.insert(did, CacheValView { doc, updated_at: now }), ..self }
    }

    /// The cache after dropping the entry of `did`.
    pub open spec fn without(self, did: Seq<char>) -> DidCacheView {
        DidCacheView { entries: self.entries.remove(did), ..self }
    }

    /// The cache after dropping every entry.
    pub open spec fn cleared(self) -> DidCacheView {
        DidCacheView { entries: Map::empty(), ..self }
    }

    /// What a lookup of `did` at time `now` finds.
    pub open spec fn check(self, did: Seq<char>, now: u128) -> Option<CacheResultView> {
        if self.entries.dom().contains(did) {
            let v = self.entries[did];
            Some(CacheResultView {
                did,
                doc: v.doc,
                updated_at: v.updated_at,
                stale: now > v.updated_at + self.stale_ttl,
                expired: now > v.updated_at + self.max_ttl,
            })
        } else {
            None
        }
    }
}

/// The plain content of an optional lookup result.
pub open spec fn opt_result_view(r: Option<CacheResult>) -> Option<CacheResultView> {
    match r {
        Some(c) => Some(c@),
        None => None,
    }
}

/// One stored document.
struct CacheEntry {
    did: String,
    val: CacheVal,
}

/// Microseconds in an hour: the default staleness age (`HOUR` seconds).
pub open spec fn spec_default_stale_ttl() -> u128 {
    3_600_000_000_000
}

/// The default expiry age (`DAY` seconds), in microseconds.
pub open spec fn spec_default_max_ttl() -> u128 {
    86_400_000_000_000
}

/// A memory cache of DID documents. Ages are in microseconds.
pub struct DidCache {
    pub stale_ttl: u128,
    pub max_ttl: u128,
    entries: Vec<CacheEntry>,
}

/// The system clock reads a time before the Unix epoch.
#[derive(Debug)]
pub struct ClockError;

/// Reads the system clock: microseconds since the Unix epoch, or `None` where
/// the clock is set before it. Nothing is claimed of the value.
#[verifier::external_body]
fn now_micros() -> (r: Option<u128>) {
    match std::time::SystemTime::now().duration_since(std::time::UNIX_EPOCH) {
        Ok(d) => Some(d.as_micros()),
        Err(_) => None,
    }
}

impl DidCache {
    /// The DID of entry `i`.
    spec fn key(&self, i: int) -> Seq<char> {
        self.entries@[i].did@
    }

    /// No DID is stored twice.
    pub closed spec fn wf(&self) -> bool {
        forall|i: int, j: int|
            0 <= i < self.entries@.len() && 0 <= j < self.entries@.len() && i != j
                ==> #[trigger] self.key(i) != #[trigger] self.key(j)
    }

    /// Some entry holds `did`.
    spec fn holds(&self, did: Seq<char>) -> bool {
        exists|i: int| 0 <= i < self.entries@.len() && #[trigger] self.key(i) == did
    }

    /// The entry that holds `did`.
    spec fn index_of(&self, did: Seq<char>) -> int {
        choose|i: int| 0 <= i < self.entries@.len() && #[trigger] self.key(i) == did
    }

    /// The stored documents, by DID.
    pub closed spec fn entry_map(&self) -> Map<Seq<char>, CacheValView> {
        Map::new(
            |k: Seq<char>| self.holds(k),
            |k: Seq<char>| self.entries@[self.index_of(k)].val@,
        )
    }

    /// The ages and the stored documents.
    pub closed spec fn view(&self) -> DidCacheView {
        DidCacheView { stale_ttl: self.stale_ttl, max_ttl: self.max_ttl, entries: self.entry_map() }
    }


    proof fn lemma_entry(&self, i: int)
        requires
            self.wf(),
            0 <= i < self.entries@.len(),
        ensures
            self.view().entries.dom().contains(self.key(i)),
            self.view().entries[self.key(i)] == self.entries@[i].val@,
    {
        assert(self.holds(self.key(i)));
        let j = self.index_of(self.key(i));
        assert(self.key(j) == self.key(i));
    }

    proof fn lemma_absent(&self, did: Seq<char>)
        requires
            forall|i: int| 0 <= i < self.entries@.len() ==> self.key(i) != did,
        ensures
            !self.view().entries.dom().contains(did),
    {
    }

    /// An empty cache with the given ages; an absent age defaults to `HOUR`
    /// seconds for staleness and `DAY` seconds for expiry.
    pub fn new(stale_ttl: Option<u128>, max_ttl: Option<u128>) -> (c: DidCache)
        ensures
            c.wf(),
            c.view() == (DidCacheView {
                stale_ttl: match stale_ttl { Some(t) => t, None => spec_default_stale_ttl() },
                max_ttl: match max_ttl { Some(t) => t, None => spec_default_max_ttl() },
                entries: Map::empty(),
            }),
    {
        let hour_secs: u128 = HOUR as u128;
        let day_secs: u128 = DAY as u128;
        let c = DidCache {
            stale_ttl: match stale_ttl { Some(t) => t, None => hour_secs * 1_000_000 },
            max_ttl: match max_ttl { Some(t) => t, None => day_secs * 1_000_000 },
            entries: Vec::new(),
        };
        assert(c.view().entries =~= Map::empty());
        c
    }

    /// The index of the entry of `did`.
    fn find(&self, did: &String) -> (r: Option<usize>)
        requires
            self.wf(),
        ensures
            match r {
                Some(i) => i < self.entries@.len() && self.key(i as int) == did@,
                None => forall|i: int| 0 <= i < self.entries@.len() ==> self.key(i) != did@,
            },
    {
        let mut i: usize = 0;
        while i < self.entries.len()
            invariant
                i <= self.entries@.len(),
                forall|j: int| 0 <= j < i ==> self.key(j) != did@,
            decreases self.entries@.len() - i,
        {
            if str_eq(self.entries[i].did.as_str(), did.as_str()) {
                return Some(i);
            }
            i = i + 1;
        }
        None
    }

    /// Stores `doc` under `did` as of time `now`, replacing any earlier entry.
    pub fn cache_did_at(&mut self, did: String, doc: DidDocument, now: u128)
        requires
            old(self).wf(),
        ensures
            final(self).wf(),
            final(self).view() == old(self).view().cached(did@, doc@, now),
    {
        let ghost old_view = self.view();
        let ghost k = did@;
        let ghost v = CacheValView { doc: doc@, updated_at: now };
        match self.find(&did) {
            Some(i) => {
                let ghost before = *self;
                let entry = CacheEntry { did, val: CacheVal { doc, updated_at: now } };
                self.entries.set(i, entry);
                proof {
                    assert forall|a: int| 0 <= a < self.entries@.len() implies self.key(a) == before.key(a) by {}
                    assert forall|a: int, b: int|
                        0 <= a < self.entries@.len() && 0 <= b < self.entries@.len() && a != b
                        implies #[trigger] self.key(a) != #[trigger] self.key(b) by {
                        assert(before.key(a) != before.key(b));
                    }
                    assert forall|x: Seq<char>| #![auto] self.view().entries.dom().contains(x)
                        == old_view.cached(k, doc@, now).entries.dom().contains(x) by {
                        if self.holds(x) {
                            let a = self.index_of(x);
                            assert(before.key(a) == x);
                        }
                        if x != k && before.holds(x) {
                            let a = before.index_of(x);
                            assert(self.key(a) == x);
                        }
                        if x == k {
                            assert(self.key(i as int) == k);
                        }
                    }
                    assert forall|x: Seq<char>| #![auto] self.view().entries.dom().contains(x)
                        implies self.view().entries[x] == old_view.cached(k, doc@, now).entries[x] by {
                        let a = self.index_of(x);
                        if x == k {
                            self.lemma_entry(i as int);
                        } else {
                            before.lemma_entry(a);
                            assert(a != i);
                        }
                    }
                    assert(self.view().entries =~= old_view.cached(k, doc@, now).entries);
                }
            },
            None => {
                let ghost before = *self;
                let entry = CacheEntry { did, val: CacheVal { doc, updated_at: now } };
                self.entries.push(entry);
                proof {
                    let n = before.entries@.len() as int;
                    assert forall|a: int| 0 <= a < n implies self.key(a) == before.key(a) by {}
                    assert(self.key(n) == k);
                    assert forall|a: int, b: int|
                        0 <= a < self.entries@.len() && 0 <= b < self.entries@.len() && a != b
                        implies #[trigger] self.key(a) != #[trigger] self.key(b) by {
                        if a < n && b < n {
                            assert(before.key(a) != before.key(b));
                        } else if a == n {
                            assert(self.key(b) == before.key(b));
                            assert(before.key(b) != k);
                        } else {
                            assert(self.key(a) == before.key(a));
                            assert(before.key(a) != k);
                        }
                    }
                    assert forall|x: Seq<char>| #![auto] self.view().entries.dom().contains(x)
                        == old_view.cached(k, doc@, now).entries.dom().contains(x) by {
                        if self.holds(x) {
                            let a = self.index_of(x);
                            if a < n {
                                assert(before.key(a) == x);
                            }
                        }
                        if before.holds(x) {
                            let a = before.index_of(x);
                            assert(self.key(a) == x);
                        }
                    }
                    assert forall|x: Seq<char>| #![auto] self.view().entries.dom().contains(x)
                        implies self.view().entries[x] == old_view.cached(k, doc@, now).entries[x] by {
                        let a = self.index_of(x);
                        if x == k {
                            self.lemma_entry(n);
                        } else {
                            before.lemma_entry(a);
                        }
                    }
                    assert(self.view().entries =~= old_view.cached(k, doc@, now).entries);
                }
            },
        }
    }

    /// Stores `doc` under `did` as of the current time. Fails, changing
    /// nothing, only where the clock reads a time before the Unix epoch.
    pub fn cache_did(&mut self, did: String, doc: DidDocument) -> (r: Result<(), ClockError>)
        requires
            old(self).wf(),
        ensures
            final(self).wf(),
            match r {
                Ok(()) => exists|t: u128| final(self).view() == old(self).view().cached(did@, doc@, t),
                Err(_) => final(self).view() == old(self).view(),
            },
    {
        match now_micros() {
            Some(now) => {
                self.cache_did_at(did, doc, now);
                Ok(())
            },
            None => Err(ClockError),
        }
    }

    /// Stores a freshly fetched document under `did` as of time `now`; where
    /// the fetch found none, the cache is left as it is.
    pub fn refresh_cache_at(&mut self, did: String, fetched: Option<DidDocument>, now: u128)
        requires
            old(self).wf(),
        ensures
            final(self).wf(),
            match fetched {
                None => final(self).view() == old(self).view(),
                Some(doc) => final(self).view() == old(self).view().cached(did@, doc@, now),
            },
    {
        match fetched {
            None => {},
            Some(doc) => self.cache_did_at(did, doc, now),
        }
    }

    /// Stores a freshly fetched document under `did`; where the fetch found
    /// none, the cache is left as it is.
    pub fn refresh_cache(&mut self, did: String, fetched: Option<DidDocument>) -> (r: Result<(), ClockError>)
        requires
            old(self).wf(),
        ensures
            final(self).wf(),
            match fetched {
                None => r is Ok && final(self).view() == old(self).view(),
                Some(doc) => match r {
                    Ok(()) => exists|t: u128| final(self).view() == old(self).view().cached(did@, doc@, t),
                    Err(_) => final(self).view() == old(self).view(),
                },
            },
    {
        match fetched {
            None => Ok(()),
            Some(doc) => self.cache_did(did, doc),
        }
    }

    /// Looks `did` up as of time `now`.
    pub fn check_cache_at(&self, did: String, now: u128) -> (r: Option<CacheResult>)
        requires
            self.wf(),
        ensures
            opt_result_view(r) == self.view().check(did@, now),
    {
        match self.find(&did) {
            None => {
                proof {
                    self.lemma_absent(did@);
                }
                None
            },
            Some(i) => {
                proof {
                    self.lemma_entry(i as int);
                }
                let val = &self.entries[i].val;
                let stale = match val.updated_at.checked_add(self.stale_ttl) {
                    Some(limit) => now > limit,
                    None => false,
                };
                let expired = match val.updated_at.checked_add(self.max_ttl) {
                    Some(limit) => now > limit,
                    None => false,
                };
                Some(CacheResult { did, doc: val.doc.copy(), updated_at: val.updated_at, stale, expired })
            },
        }
    }

    /// Looks `did` up as of the current time. Fails only where the clock reads
    /// a time before the Unix epoch.
    pub fn check_cache(&self, did: String) -> (r: Result<Option<CacheResult>, ClockError>)
        requires
            self.wf(),
        ensures
            r matches Ok(found) ==> exists|t: u128| opt_result_view(found) == self.view().check(did@, t),
            !self.view().entries.dom().contains(did@) ==> r matches Ok(None),
    {
        match self.find(&did) {
            None => {
                proof {
                    self.lemma_absent(did@);
                    assert(opt_result_view(None) == self.view().check(did@, 0));
                }
                Ok(None)
            },
            Some(_) => match now_micros() {
                Some(now) => Ok(self.check_cache_at(did, now)),
                None => Err(ClockError),
            },
        }
    }

    /// Drops the entry of `did`, if there is one.
    pub fn clear_entry(&mut self, did: String)
        requires
            old(self).wf(),
        ensures
            final(self).wf(),
            final(self).view() == old(self).view().without(did@),
    {
        let ghost old_view = self.view();
        match self.find(&did) {
            None => {
                proof {
                    self.lemma_absent(did@);
                    assert(old_view.entries.remove(did@) =~= old_view.entries);
                }
            },
            Some(i) => {
                let ghost before = *self;
                let _removed = self.entries.remove(i);
                proof {
                    let n = before.entries@.len() as int;
                    assert forall|a: int| 0 <= a < n - 1 implies self.key(a) == before.key(if a < i { a } else { a + 1 }) by {}
                    assert forall|a: int, b: int|
                        0 <= a < self.entries@.len() && 0 <= b < self.entries@.len() && a != b
                        implies #[trigger] self.key(a) != #[trigger] self.key(b) by {
                        let a2 = if a < i { a } else { a + 1 };
                        let b2 = if b < i { b } else { b + 1 };
                        assert(before.key(a2) != before.key(b2));
                    }
                    assert forall|x: Seq<char>| #![auto] self.view().entries.dom().contains(x)
                        == old_view.without(did@).entries.dom().contains(x) by {
                        if self.holds(x) {
                            let a = self.index_of(x);
                            let a2 = if a < i { a } else { a + 1 };
                            assert(before.key(a2) == x);
                            assert(a2 != i);
                        }
                        if x != did@ && before.holds(x) {
                            let a = before.index_of(x);
                            assert(a != i);
                            let a1 = if a < i { a } else { a - 1 };
                            assert(self.key(a1) == x);
                        }
                    }
                    assert forall|x: Seq<char>| #![auto] self.view().entries.dom().contains(x)
                        implies self.view().entries[x] == old_view.without(did@).entries[x] by {
                        let a = self.index_of(x);
                        let a2 = if a < i { a } else { a + 1 };
                        before.lemma_entry(a2);
                    }
                    assert(self.view().entries =~= old_view.without(did@).entries);
                }
            },
        }
    }

    /// Drops every entry.
    pub fn clear(&mut self)
        requires
            old(self).wf(),
        ensures
            final(self).wf(),
            final(self).view() == old(self).view().cleared(),
    {
        self.entries.clear();
        assert(self.view().entries =~= Map::empty());
    }
}

/// A lookup right after storing a document finds that document, stored at
/// that time, stale or expired exactly when its age passes the cache's ages.
pub proof fn law_check_after_cache(c: DidCacheView, did: Seq<char>, doc: DidDocumentView, t: u128, now: u128)
    ensures
        c.cached(did, doc, t).check(did, now) == Some(CacheResultView {
            did,
            doc,
            updated_at: t,
            stale: now > t + c.stale_ttl,
            expired: now > t + c.max_ttl,
        }),
{
}

/// Storing a document under one DID leaves the lookup of every other DID as
/// it was.
pub proof fn law_cache_keeps_others(c: DidCacheView, did: Seq<char>, doc: DidDocumentView, t: u128, other: Seq<char>, now: u128)
    requires
        other != did,
    ensures
        c.cached(did, doc, t).check(other, now) == c.check(other, now),
{
}

/// After dropping the entry of a DID, a lookup of it finds nothing, and every
/// other lookup is as it was.
pub proof fn law_clear_entry(c: DidCacheView, did: Seq<char>, other: Seq<char>, now: u128)
    ensures
        c.without(did).check(did, now) is None,
        other != did ==> c.without(did).check(other, now) == c.check(other, now),
{
}

/// After clearing, no lookup finds anything.
pub proof fn law_clear(c: DidCacheView, did: Seq<char>, now: u128)
    ensures
        c.cleared().check(did, now) is None,
{
}

/// Where documents expire no earlier than they go stale, an expired result is
/// also stale.
pub proof fn law_expired_is_stale(c: DidCacheView, did: Seq<char>, now: u128)
    requires
        c.stale_ttl <= c.max_ttl,
    ensures
        c.check(did, now) matches Some(res) ==> (res.expired ==> res.stale),
{
}

} // verus!
