//! Ordering feed rows newest first, as a stable sort by indexing time.
use vstd::prelude::*;
use crate::feedgen::models::Post;

verus! {

/// The second since the Unix epoch of the time that chrono reads from `s`
/// with the format `%+`, where it reads one.
pub uninterp spec fn spec_rfc3339_secs(s: Seq<char>) -> Option<i64>;

/// Calls chrono's `NaiveDateTime::parse_from_str(s, "%+")` and, where it
/// reads a time, `and_utc().timestamp()`. Claims that the result is the name
/// `spec_rfc3339_secs` of the input.
#[verifier::external_body]
fn rfc3339_secs(s: &str) -> (r: Option<i64>)
    ensures
        r == spec_rfc3339_secs(s@),
{
    match ::chrono::NaiveDateTime::parse_from_str(s, "%+") {
        Ok(t) => Some(t.and_utc().timestamp()),
        Err(_) => None,
    }
}

/// Where a row with time `key` goes among rows ordered newest first: after
/// every row at least as new.
pub open spec fn spec_insert_pos(sorted: Seq<(i64, Post)>, key: i64) -> int
    decreases sorted.len(),
{
    if sorted.len() == 0 || sorted[0].0 < key {
        0
    } else {
        1 + spec_insert_pos(sorted.skip(1), key)
    }
}

/// Rows ordered newest first; rows of the same time keep their order.
pub open spec fn spec_newest_first(rows: Seq<(i64, Post)>) -> Seq<(i64, Post)>
    decreases rows.len(),
{
    if rows.len() == 0 {
        Seq::empty()
    } else {
        let sorted = spec_newest_first(rows.drop_last());
        sorted.insert(spec_insert_pos(sorted, rows.last().0), rows.last())
    }
}

/// Each post with its time.
pub open spec fn spec_timed(keys: Seq<i64>, posts: Seq<Post>) -> Seq<(i64, Post)> {
    Seq::new(posts.len(), |i: int| (keys[i], posts[i]))
}

/// The posts of timed rows.
pub open spec fn spec_posts_of(rows: Seq<(i64, Post)>) -> Seq<Post> {
    rows.map_values(|r: (i64, Post)| r.1)
}

/// Rows are ordered newest first.
pub open spec fn spec_is_newest_first(rows: Seq<(i64, Post)>) -> bool {
    forall|i: int, j: int| 0 <= i < j < rows.len() ==> rows[i].0 >= rows[j].0
}

proof fn lemma_insert_pos(sorted: Seq<(i64, Post)>, key: i64, p: int)
    requires
        0 <= p <= sorted.len(),
        p == sorted.len() || sorted[p].0 < key,
        forall|j: int| 0 <= j < p ==> sorted[j].0 >= key,
    ensures
        spec_insert_pos(sorted, key) == p,
    decreases p,
{
    if p > 0 {
        assert forall|j: int| 0 <= j < p - 1 implies sorted.skip(1)[j].0 >= key by {
            assert(sorted.skip(1)[j] == sorted[j + 1]);
        }
        lemma_insert_pos(sorted.skip(1), key, p - 1);
    }
}

/// Orders posts newest first by their times `keys` (one per post), keeping
/// the order of posts of the same time.
pub fn newest_first(posts: Vec<Post>, keys: Vec<i64>) -> (r: Vec<Post>)
    requires
        keys@.len() == posts@.len(),
    ensures
        r@ == spec_posts_of(spec_newest_first(spec_timed(keys@, posts@))),
{
    let ghost rows = spec_timed(keys@, posts@);
    let ghost orig = posts@;
    let n = posts.len();
    let mut rest = posts;
    let mut out: Vec<Post> = Vec::new();
    let mut out_keys: Vec<i64> = Vec::new();
    let mut i: usize = 0;
    assert(rows.take(0) =~= Seq::<(i64, Post)>::empty());
    assert(orig.skip(0) =~= orig);
    while i < n
        invariant
            n == orig.len() == keys@.len(),
            rows == spec_timed(keys@, orig),
            i <= n,
            rest@ == orig.skip(i as int),
            out@.len() == out_keys@.len(),
            spec_timed(out_keys@, out@) == spec_newest_first(rows.take(i as int)),
        decreases n - i,
    {
        let ghost sorted = spec_timed(out_keys@, out@);
        let x = rest.remove(0);
        assert(rest@ =~= orig.skip(i + 1));
        let k = keys[i];
        let mut p: usize = 0;
        while p < out_keys.len() && out_keys[p] >= k
            invariant
                p <= out_keys@.len(),
                out@.len() == out_keys@.len(),
                sorted == spec_timed(out_keys@, out@),
                forall|j: int| 0 <= j < p ==> sorted[j].0 >= k,
            decreases out_keys@.len() - p,
        {
            p = p + 1;
        }
        proof {
            lemma_insert_pos(sorted, k, p as int);
            assert(rows.take(i + 1).drop_last() =~= rows.take(i as int));
            assert(rows.take(i + 1).last() == (k, x));
        }
        out.insert(p, x);
        out_keys.insert(p, k);
        assert(spec_timed(out_keys@, out@) =~= sorted.insert(p as int, (k, x)));
        i = i + 1;
    }
    assert(rows.take(n as int) =~= rows);
    assert(out@ =~= spec_posts_of(spec_newest_first(rows)));
    out
}

/// `r` is `posts` ordered newest first by the time chrono reads from each
/// post's `indexed_at`, or `None` where some post's time cannot be read.
pub open spec fn spec_sorted_by_time(posts: Seq<Post>, r: Option<Seq<Post>>) -> bool {
    match r {
        Some(sorted) => exists|keys: Seq<i64>|
            keys.len() == posts.len()
            && (forall|i: int| 0 <= i < keys.len() ==> spec_rfc3339_secs(#[trigger] posts[i].indexed_at@) == Some(keys[i]))
            && sorted == spec_posts_of(spec_newest_first(spec_timed(keys, posts))),
        None => exists|i: int| 0 <= i < posts.len() && spec_rfc3339_secs(#[trigger] posts[i].indexed_at@) is None,
    }
}

/// The plain content of an optional list of posts.
pub open spec fn opt_posts(r: Option<Vec<Post>>) -> Option<Seq<Post>> {
    match r {
        Some(v) => Some(v@),
        None => None,
    }
}

/// Orders posts newest first by the time at which they were indexed; `None`
/// where some post's time cannot be read.
pub fn sort_by_indexed_time(posts: Vec<Post>) -> (r: Option<Vec<Post>>)
    ensures
        spec_sorted_by_time(posts@, opt_posts(r)),
{
    let mut keys: Vec<i64> = Vec::new();
    let mut i: usize = 0;
    while i < posts.len()
        invariant
            i <= posts@.len(),
            keys@.len() == i,
            forall|j: int| 0 <= j < i ==> spec_rfc3339_secs(#[trigger] posts@[j].indexed_at@) == Some(keys@[j]),
        decreases posts@.len() - i,
    {
        match rfc3339_secs(posts[i].indexed_at.as_str()) {
            Some(k) => keys.push(k),
            None => return None,
        }
        i = i + 1;
    }
    let ghost ks = keys@;
    let ghost ps = posts@;
    let sorted = newest_first(posts, keys);
    assert(ks.len() == ps.len());
    Some(sorted)
}

/// Rows ordered by `spec_newest_first` are ordered newest first.
pub proof fn law_newest_first_is_ordered(rows: Seq<(i64, Post)>)
    ensures
        spec_is_newest_first(spec_newest_first(rows)),
        spec_newest_first(rows).len() == rows.len(),
    decreases rows.len(),
{
    if rows.len() > 0 {
        law_newest_first_is_ordered(rows.drop_last());
        let sorted = spec_newest_first(rows.drop_last());
        let x = rows.last();
        let p = spec_insert_pos(sorted, x.0);
        lemma_insert_pos_bounds(sorted, x.0);
        let out = sorted.insert(p, x);
        assert forall|i: int, j: int| 0 <= i < j < out.len() implies out[i].0 >= out[j].0 by {
            if j < p {
            } else if j == p {
                assert(out[i] == sorted[i]);
            } else if i == p {
                assert(out[j] == sorted[j - 1]);
            } else if i < p {
                assert(out[j] == sorted[j - 1]);
            } else {
                assert(out[i] == sorted[i - 1]);
                assert(out[j] == sorted[j - 1]);
            }
        }
    }
}

proof fn lemma_insert_pos_bounds(sorted: Seq<(i64, Post)>, key: i64)
    requires
        spec_is_newest_first(sorted),
    ensures
        0 <= spec_insert_pos(sorted, key) <= sorted.len(),
        forall|j: int| 0 <= j < spec_insert_pos(sorted, key) ==> sorted[j].0 >= key,
        forall|j: int| spec_insert_pos(sorted, key) <= j < sorted.len() ==> sorted[j].0 < key,
    decreases sorted.len(),
{
    if sorted.len() > 0 && sorted[0].0 >= key {
        let t = sorted.skip(1);
        assert forall|i: int, j: int| 0 <= i < j < t.len() implies t[i].0 >= t[j].0 by {
            assert(t[i] == sorted[i + 1]);
            assert(t[j] == sorted[j + 1]);
        }
        lemma_insert_pos_bounds(t, key);
        assert forall|j: int| 0 <= j < spec_insert_pos(sorted, key) implies sorted[j].0 >= key by {
            if j > 0 {
                assert(sorted[j] == t[j - 1]);
            }
        }
        assert forall|j: int| spec_insert_pos(sorted, key) <= j < sorted.len() implies sorted[j].0 < key by {
            assert(sorted[j] == t[j - 1]);
        }
    } else if sorted.len() > 0 {
        assert forall|j: int| 0 <= j < sorted.len() implies sorted[j].0 < key by {
            assert(sorted[0].0 >= sorted[j].0);
        }
    }
}

} // verus!
