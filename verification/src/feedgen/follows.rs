//! A user's follows: reading them out of repository records, choosing whose
//! reposts to show, and reconciling the cached ones with the PDS.
use vstd::prelude::*;
use crate::feedgen::models::{Follow, FollowingPreference};
use crate::feedgen::query::spec_did_list;
use crate::text::str_eq;

verus! {

/// The collection of follow records.
pub const FOLLOW_COLLECTION: &'static str = "app.bsky.graph.follow";

/// What a `listRecords` entry holds that a follow is read from: its URI and
/// content id, and the `$type`, `subject` and `createdAt` of its value where
/// they are strings.
pub struct ListedRecord {
    pub uri: String,
    pub cid: String,
    pub record_type: Option<String>,
    pub subject: Option<String>,
    pub created_at: Option<String>,
}

/// The paging of a `listRecords` listing of follow records: the records
/// read so far, whether a page was asked for yet, and the cursor that the
/// last page gave.
pub struct FollowListing {
    pub records: Vec<ListedRecord>,
    pub started: bool,
    pub cursor: Option<String>,
}

impl FollowListing {
    /// A listing that has read nothing yet.
    pub fn new() -> (l: FollowListing)
        ensures
            l.records@.len() == 0,
            !l.started,
            l.cursor is None,
    {
        FollowListing { records: Vec::new(), started: false, cursor: None }
    }

    /// The next page to ask for: `Some(None)` for the first page,
    /// `Some(Some(c))` while the last page gave the cursor `c`, and `None`
    /// once a page came back without a cursor or a request failed.
    pub fn next_request(&self) -> (r: Option<Option<String>>)
        ensures
            !self.started ==> r == Some(None::<String>),
            self.started ==> match self.cursor {
                Some(c) => r matches Some(Some(x)) && x@ == c@,
                None => r is None,
            },
    {
        if !self.started {
            Some(None)
        } else {
            match &self.cursor {
                Some(c) => Some(Some(c.clone())),
                None => None,
            }
        }
    }

    /// Takes in the answer to a request: a page of records and the cursor
    /// it gave, or `None` where the request failed, which ends the listing.
    pub fn absorb(&mut self, page: Option<(Vec<ListedRecord>, Option<String>)>)
        ensures
            final(self).started,
            match page {
                Some((recs, next)) => final(self).records@ == old(self).records@ + recs@
                    && final(self).cursor == next,
                None => final(self).records@ == old(self).records@ && final(self).cursor is None,
            },
    {
        self.started = true;
        match page {
            Some((recs, next)) => {
                let mut recs = recs;
                self.records.append(&mut recs);
                self.cursor = next;
            },
            None => {
                self.cursor = None;
            },
        }
    }
}

/// The record is a follow record.
pub open spec fn spec_is_follow_record(r: ListedRecord) -> bool {
    r.record_type matches Some(t) && t@ == FOLLOW_COLLECTION@
}

/// A follow record carries the fields a follow is read from.
pub open spec fn spec_follow_record_complete(r: ListedRecord) -> bool {
    spec_is_follow_record(r) ==> r.subject is Some && r.created_at is Some
}

/// The follow that a follow record of `did` states.
pub open spec fn spec_follow_of(did: Seq<char>, r: ListedRecord, f: Follow) -> bool {
    &&& f.uri@ == r.uri@
    &&& f.cid@ == r.cid@
    &&& f.author@ == did
    &&& f.subject@ == r.subject->Some_0@
    &&& f.created_at@ == r.created_at->Some_0@
    &&& f.indexed_at@ == r.created_at->Some_0@
    &&& f.prev is None
    &&& f.sequence is None
}

/// The follow records among `records`, in order.
pub open spec fn spec_follow_records(records: Seq<ListedRecord>) -> Seq<ListedRecord>
    decreases records.len(),
{
    if records.len() == 0 {
        Seq::empty()
    } else if spec_is_follow_record(records.last()) {
        spec_follow_records(records.drop_last()).push(records.last())
    } else {
        spec_follow_records(records.drop_last())
    }
}

/// The follows of `did` that its repository's records state, in order: one
/// per follow record.
pub fn follows_from_records(did: &str, records: &Vec<ListedRecord>) -> (r: Vec<Follow>)
    requires
        forall|i: int| 0 <= i < records@.len() ==> spec_follow_record_complete(#[trigger] records@[i]),
    ensures
        r@.len() == spec_follow_records(records@).len(),
        forall|i: int| 0 <= i < r@.len() ==> spec_follow_of(did@, spec_follow_records(records@)[i], #[trigger] r@[i]),
{
    let mut r: Vec<Follow> = Vec::new();
    let mut i: usize = 0;
    while i < records.len()
        invariant
            i <= records@.len(),
            forall|j: int| 0 <= j < records@.len() ==> spec_follow_record_complete(#[trigger] records@[j]),
            r@.len() == spec_follow_records(records@.take(i as int)).len(),
            forall|j: int| 0 <= j < r@.len() ==> spec_follow_of(did@, spec_follow_records(records@.take(i as int))[j], #[trigger] r@[j]),
        decreases records@.len() - i,
    {
        let rec = &records[i];
        assert(records@.take(i + 1).drop_last() =~= records@.take(i as int));
        assert(records@.take(i + 1).last() == *rec);
        let is_follow = match &rec.record_type {
            Some(t) => str_eq(t.as_str(), FOLLOW_COLLECTION),
            None => false,
        };
        if is_follow {
            assert(spec_follow_record_complete(records@[i as int]));
            let subject = match &rec.subject {
                Some(s) => s.clone(),
                None => String::new(),
            };
            let created_at = match &rec.created_at {
                Some(c) => c.clone(),
                None => String::new(),
            };
            let f = Follow {
                uri: rec.uri.clone(),
                cid: rec.cid.clone(),
                author: String::from_str(did),
                subject,
                created_at: created_at.clone(),
                indexed_at: created_at,
                prev: None,
                sequence: None,
            };
            r.push(f);
            assert forall|j: int| 0 <= j < r@.len() implies spec_follow_of(did@, spec_follow_records(records@.take(i + 1))[j], #[trigger] r@[j]) by {
                if j < r@.len() - 1 {
                    assert(spec_follow_records(records@.take(i + 1))[j] == spec_follow_records(records@.take(i as int))[j]);
                }
            }
        }
        i = i + 1;
    }
    assert(records@.take(i as int) =~= records@);
    r
}

/// Some preference of the user turns off the reposts of `did`.
pub open spec fn spec_hides_reposts(prefs: Seq<FollowingPreference>, did: Seq<char>) -> bool {
    exists|i: int| 0 <= i < prefs.len() && prefs[i].did@ == did && !prefs[i].show_reposts
}

/// The followed DIDs whose reposts show, in order.
pub open spec fn spec_reposts_shown(dids: Seq<Seq<char>>, prefs: Seq<FollowingPreference>) -> Seq<Seq<char>>
    decreases dids.len(),
{
    if dids.len() == 0 {
        Seq::empty()
    } else if spec_hides_reposts(prefs, dids.last()) {
        spec_reposts_shown(dids.drop_last(), prefs)
    } else {
        spec_reposts_shown(dids.drop_last(), prefs).push(dids.last())
    }
}

/// Whether some preference turns off the reposts of `did`.
fn hides_reposts(prefs: &[FollowingPreference], did: &str) -> (r: bool)
    ensures
        r == spec_hides_reposts(prefs@, did@),
{
    let mut i: usize = 0;
    while i < prefs.len()
        invariant
            i <= prefs@.len(),
            forall|j: int| 0 <= j < i ==> !(prefs@[j].did@ == did@ && !prefs@[j].show_reposts),
        decreases prefs@.len() - i,
    {
        if !prefs[i].show_reposts && str_eq(prefs[i].did.as_str(), did) {
            return true;
        }
        i = i + 1;
    }
    false
}

/// The followed DIDs whose reposts show, as a list of quoted SQL strings.
pub fn get_following_reposts_string(follow_dids: &[String], prefs: &[FollowingPreference]) -> (r: String)
    ensures
        r@ == spec_did_list(spec_reposts_shown(follow_dids@.map_values(|s: String| s@), prefs@)),
{
    let ghost ds = follow_dids@.map_values(|s: String| s@);
    let mut shown: Vec<String> = Vec::new();
    let mut i: usize = 0;
    assert(ds.take(0) =~= Seq::<Seq<char>>::empty());
    assert(shown@.map_values(|s: String| s@) =~= Seq::<Seq<char>>::empty());
    while i < follow_dids.len()
        invariant
            ds == follow_dids@.map_values(|s: String| s@),
            i <= follow_dids@.len(),
            shown@.map_values(|s: String| s@) == spec_reposts_shown(ds.take(i as int), prefs@),
        decreases follow_dids@.len() - i,
    {
        assert(ds.take(i + 1).drop_last() =~= ds.take(i as int));
        assert(ds.take(i + 1).last() == follow_dids@[i as int]@);
        if !hides_reposts(prefs, follow_dids[i].as_str()) {
            let ghost before = shown@;
            let d = follow_dids[i].clone();
            shown.push(d);
            assert(shown@.map_values(|s: String| s@) =~= before.map_values(|s: String| s@).push(follow_dids@[i as int]@));
        }
        i = i + 1;
    }
    assert(ds.take(i as int) =~= ds);
    crate::feedgen::query::format_did_list(shown.as_slice())
}

/// Some follow of `follows` has the URI `uri`.
pub open spec fn spec_has_uri(follows: Seq<Follow>, uri: Seq<char>) -> bool {
    exists|i: int| 0 <= i < follows.len() && follows[i].uri@ == uri
}

/// The URIs of the cached follows that the PDS no longer has, in order.
pub open spec fn spec_stale_uris(db: Seq<Follow>, pds: Seq<Follow>) -> Seq<Seq<char>>
    decreases db.len(),
{
    if db.len() == 0 {
        Seq::empty()
    } else if spec_has_uri(pds, db.last().uri@) {
        spec_stale_uris(db.drop_last(), pds)
    } else {
        spec_stale_uris(db.drop_last(), pds).push(db.last().uri@)
    }
}

/// The follows of the PDS that the cache lacks, in order.
pub open spec fn spec_missing_follows(pds: Seq<Follow>, db: Seq<Follow>) -> Seq<Follow>
    decreases pds.len(),
{
    if pds.len() == 0 {
        Seq::empty()
    } else if spec_has_uri(db, pds.last().uri@) {
        spec_missing_follows(pds.drop_last(), db)
    } else {
        spec_missing_follows(pds.drop_last(), db).push(pds.last())
    }
}

/// Whether some follow has the URI `uri`.
fn has_uri(follows: &[Follow], uri: &str) -> (r: bool)
    ensures
        r == spec_has_uri(follows@, uri@),
{
    let mut i: usize = 0;
    while i < follows.len()
        invariant
            i <= follows@.len(),
            forall|j: int| 0 <= j < i ==> follows@[j].uri@ != uri@,
        decreases follows@.len() - i,
    {
        if str_eq(follows[i].uri.as_str(), uri) {
            return true;
        }
        i = i + 1;
    }
    false
}

/// What reconciling a user's cached follows with their PDS changes: the URIs
/// of cached follows to delete, and the PDS follows to insert.
pub fn reconcile_follow_sets(db: &[Follow], pds: Vec<Follow>) -> (r: (Vec<String>, Vec<Follow>))
    ensures
        r.0@.map_values(|s: String| s@) == spec_stale_uris(db@, pds@),
        r.1@ == spec_missing_follows(pds@, db@),
{
    let mut stale: Vec<String> = Vec::new();
    let mut i: usize = 0;
    assert(db@.take(0) =~= Seq::<Follow>::empty());
    assert(stale@.map_values(|s: String| s@) =~= Seq::<Seq<char>>::empty());
    while i < db.len()
        invariant
            i <= db@.len(),
            stale@.map_values(|s: String| s@) == spec_stale_uris(db@.take(i as int), pds@),
        decreases db@.len() - i,
    {
        assert(db@.take(i + 1).drop_last() =~= db@.take(i as int));
        assert(db@.take(i + 1).last() == db@[i as int]);
        if !has_uri(pds.as_slice(), db[i].uri.as_str()) {
            let ghost before = stale@;
            stale.push(db[i].uri.clone());
            assert(stale@.map_values(|s: String| s@) =~= before.map_values(|s: String| s@).push(db@[i as int].uri@));
        }
        i = i + 1;
    }
    assert(db@.take(i as int) =~= db@);
    let ghost orig = pds@;
    let mut missing: Vec<Follow> = Vec::new();
    let mut rest = pds;
    assert(orig.take(orig.len() as int) =~= orig);
    let n = rest.len();
    let mut rev: Vec<Follow> = Vec::new();
    let mut k: usize = n;
    while k > 0
        invariant
            k <= n == orig.len(),
            rest@ == orig.take(k as int),
            rev@.len() == n - k,
            forall|j: int| 0 <= j < n - k ==> #[trigger] rev@[j] == orig[n - 1 - j],
        decreases k,
    {
        let ghost before = rest@;
        let f = rest.pop().unwrap();
        assert(f == orig[k - 1]);
        assert(rest@ =~= orig.take(k - 1));
        rev.push(f);
        k = k - 1;
    }
    assert(missing@ =~= spec_missing_follows(orig.take(0), db@));
    let mut j: usize = 0;
    while j < n
        invariant
            j <= n == orig.len(),
            rev@.len() == n - j,
            forall|t: int| 0 <= t < n - j ==> #[trigger] rev@[t] == orig[n - 1 - t],
            missing@ == spec_missing_follows(orig.take(j as int), db@),
        decreases n - j,
    {
        let ghost rv = rev@;
        let f = rev.pop().unwrap();
        assert(f == rv[n - j - 1]);
        assert(rev@ =~= rv.drop_last());
        assert(orig.take(j + 1).drop_last() =~= orig.take(j as int));
        assert(orig.take(j + 1).last() == orig[j as int]);
        if !has_uri(db, f.uri.as_str()) {
            missing.push(f);
        }
        j = j + 1;
    }
    assert(orig.take(n as int) =~= orig);
    (stale, missing)
}

proof fn lemma_stale_uris(db: Seq<Follow>, pds: Seq<Follow>, uri: Seq<char>)
    ensures
        spec_stale_uris(db, pds).contains(uri) <==> (spec_has_uri(db, uri) && !spec_has_uri(pds, uri)),
    decreases db.len(),
{
    if db.len() > 0 {
        let init = db.drop_last();
        lemma_stale_uris(init, pds, uri);
        if spec_has_uri(init, uri) {
            let i = choose|i: int| 0 <= i < init.len() && init[i].uri@ == uri;
            assert(db[i] == init[i]);
        }
        if spec_has_uri(db, uri) && db.last().uri@ != uri {
            let i = choose|i: int| 0 <= i < db.len() && db[i].uri@ == uri;
            assert(i != db.len() - 1);
            assert(init[i] == db[i]);
        }
        if db.last().uri@ == uri {
            assert(db[db.len() - 1].uri@ == uri);
        }
        let prev = spec_stale_uris(init, pds);
        if !spec_has_uri(pds, db.last().uri@) {
            assert(spec_stale_uris(db, pds) == prev.push(db.last().uri@));
            assert(prev.push(db.last().uri@)[prev.len() as int] == db.last().uri@);
            if prev.contains(uri) {
                let k = choose|k: int| 0 <= k < prev.len() && prev[k] == uri;
                assert(prev.push(db.last().uri@)[k] == uri);
            }
            if prev.push(db.last().uri@).contains(uri) && db.last().uri@ != uri {
                let k = choose|k: int| 0 <= k < prev.len() + 1 && prev.push(db.last().uri@)[k] == uri;
                assert(k < prev.len());
                assert(prev[k] == uri);
            }
        }
    }
}

proof fn lemma_missing_follows(pds: Seq<Follow>, db: Seq<Follow>, uri: Seq<char>)
    ensures
        spec_has_uri(spec_missing_follows(pds, db), uri) <==> (spec_has_uri(pds, uri) && !spec_has_uri(db, uri)),
    decreases pds.len(),
{
    if pds.len() > 0 {
        let init = pds.drop_last();
        lemma_missing_follows(init, db, uri);
        if spec_has_uri(init, uri) {
            let i = choose|i: int| 0 <= i < init.len() && init[i].uri@ == uri;
            assert(pds[i] == init[i]);
        }
        if spec_has_uri(pds, uri) && pds.last().uri@ != uri {
            let i = choose|i: int| 0 <= i < pds.len() && pds[i].uri@ == uri;
            assert(i != pds.len() - 1);
            assert(init[i] == pds[i]);
        }
        if pds.last().uri@ == uri {
            assert(pds[pds.len() - 1].uri@ == uri);
        }
        let prev = spec_missing_follows(init, db);
        if !spec_has_uri(db, pds.last().uri@) {
            let next = prev.push(pds.last());
            assert(spec_missing_follows(pds, db) == next);
            if spec_has_uri(prev, uri) {
                let k = choose|k: int| 0 <= k < prev.len() && prev[k].uri@ == uri;
                assert(next[k] == prev[k]);
            }
            if pds.last().uri@ == uri {
                assert(next[prev.len() as int].uri@ == uri);
            }
            if spec_has_uri(next, uri) && pds.last().uri@ != uri {
                let k = choose|k: int| 0 <= k < next.len() && next[k].uri@ == uri;
                assert(k < prev.len());
                assert(prev[k] == next[k]);
            }
        }
    }
}

/// After a reconciliation, the cache holds a follow of a URI exactly where
/// the PDS does: a cached follow stays unless its URI is among those deleted,
/// and the inserted follows are those the PDS has and the cache lacked.
pub proof fn law_reconcile_matches_pds(db: Seq<Follow>, pds: Seq<Follow>, uri: Seq<char>)
    ensures
        ((spec_has_uri(db, uri) && !spec_stale_uris(db, pds).contains(uri))
            || spec_has_uri(spec_missing_follows(pds, db), uri)) <==> spec_has_uri(pds, uri),
{
    lemma_stale_uris(db, pds, uri);
    lemma_missing_follows(pds, db, uri);
}

/// The accounts that follows follow, in order.
pub fn follow_subjects(follows: &[Follow]) -> (r: Vec<String>)
    ensures
        r@.map_values(|s: String| s@) == follows@.map_values(|f: Follow| f.subject@),
{
    let mut r: Vec<String> = Vec::new();
    let mut i: usize = 0;
    while i < follows.len()
        invariant
            i <= follows@.len(),
            r@.len() == i,
            forall|j: int| 0 <= j < i ==> #[trigger] r@[j]@ == follows@[j].subject@,
        decreases follows@.len() - i,
    {
        r.push(follows[i].subject.clone());
        i = i + 1;
    }
    assert(r@.map_values(|s: String| s@) =~= follows@.map_values(|f: Follow| f.subject@));
    r
}

/// The PDS that an account's follows are read from: the resolved one, or
/// `https://bsky.social` where it could not be resolved.
pub fn pds_or_default(resolved: Option<String>) -> (r: String)
    ensures
        r@ == match resolved {
            Some(p) => p@,
            None => "https://bsky.social"@,
        },
{
    match resolved {
        Some(p) => p,
        None => String::from_str("https://bsky.social"),
    }
}

} // verus!
