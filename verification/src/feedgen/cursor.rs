//! Feed pagination cursors: `<milliseconds>::<cid>` of the last post served.
use vstd::prelude::*;
use crate::decimal::{
    i64_text, lemma_int_text_no_colon, law_parse_int_text, parse_i64, spec_int_text,
    spec_parse_i64,
};
use crate::feedgen::models::{Post, ValidationErrorMessageResponse};
use crate::text::{chars_of, string_from_chars};

verus! {

/// Nanoseconds added to a cursor's second, so that posts indexed within the
/// same second as the cursor's post still come before it.
pub const CURSOR_TIMESTAMP_TOLERANCE_NS: u32 = 230 * 1_000_000;

/// The first second that chrono's `DateTime<Utc>` can hold (the start of
/// January 1 of year -262143).
pub const CHRONO_MIN_SECS: i64 = -8334601228800;

/// The last second that chrono's `DateTime<Utc>` can hold (the end of
/// December 31 of year 262142).
pub const CHRONO_MAX_SECS: i64 = 8210266876799;

/// The text chrono writes with `%+` for the UTC time `secs` seconds and
/// `nanos` nanoseconds after the Unix epoch.
pub uninterp spec fn spec_utc_rfc3339(secs: i64, nanos: u32) -> Seq<char>;

/// The milliseconds since the Unix epoch of the time that chrono reads from
/// `s` with the format `%+`, where it reads one.
pub uninterp spec fn spec_rfc3339_millis(s: Seq<char>) -> Option<i64>;

/// Calls chrono's `DateTime::<Utc>::from_timestamp(secs, nanos)` and writes
/// the time with the format `%+`. Claims that a time comes back exactly when
/// `secs` lies within chrono's range (the function fails only for a day
/// outside `NaiveDate::MIN..=NaiveDate::MAX`, given fewer than a billion
/// nanoseconds), and that its text is the name `spec_utc_rfc3339`.
#[verifier::external_body]
fn utc_rfc3339(secs: i64, nanos: u32) -> (r: Option<String>)
    requires
        nanos < 1_000_000_000,
    ensures
        match r {
            Some(s) => s@ == spec_utc_rfc3339(secs, nanos) && CHRONO_MIN_SECS <= secs <= CHRONO_MAX_SECS,
            None => !(CHRONO_MIN_SECS <= secs <= CHRONO_MAX_SECS),
        },
{
    match ::chrono::DateTime::from_timestamp(secs, nanos) {
        Some(dt) => Some(format!("{}", dt.format("%+"))),
        None => None,
    }
}

/// Calls chrono's `NaiveDateTime::parse_from_str(s, "%+")` and, where it
/// reads a time, `and_utc().timestamp_millis()`. Claims that the result is the
/// name `spec_rfc3339_millis` of the input.
#[verifier::external_body]
fn rfc3339_millis(s: &str) -> (r: Option<i64>)
    ensures
        r == spec_rfc3339_millis(s@),
{
    match ::chrono::NaiveDateTime::parse_from_str(s, "%+") {
        Ok(t) => Some(t.and_utc().timestamp_millis()),
        Err(_) => None,
    }
}

/// A `::` begins at index `j` of `s`.
pub open spec fn spec_sep_at(s: Seq<char>, j: int) -> bool {
    s[j] == ':' && s[j + 1] == ':'
}

/// Where the first `::` of `s` begins.
pub open spec fn spec_separator_pos(s: Seq<char>) -> Option<int>
    decreases s.len(),
{
    if s.len() < 2 {
        None
    } else if s[0] == ':' && s[1] == ':' {
        Some(0)
    } else {
        match spec_separator_pos(s.skip(1)) {
            Some(p) => Some(p + 1),
            None => None,
        }
    }
}

/// The millisecond timestamp that a cursor names: the `i64` before its first
/// `::`, where it has one.
pub open spec fn spec_cursor_timestamp(cursor: Seq<char>) -> Option<i64> {
    match spec_separator_pos(cursor) {
        Some(p) => spec_parse_i64(cursor.take(p)),
        None => None,
    }
}

/// `a / b` rounded toward zero, as Rust's integer division computes it.
pub open spec fn spec_trunc_div(a: int, b: int) -> int {
    if a >= 0 { a / b } else { -((-a) / b) }
}

/// The second of a cursor's millisecond timestamp.
pub open spec fn spec_cursor_second(ts: i64) -> i64 {
    spec_trunc_div(ts as int, 1000) as i64
}

/// A cursor that the feed functions accept without failing: where it names a
/// timestamp, that timestamp's second lies within chrono's range.
pub open spec fn spec_cursor_in_range(cursor: Seq<char>) -> bool {
    spec_cursor_timestamp(cursor) matches Some(ts) ==> CHRONO_MIN_SECS <= spec_cursor_second(ts) <= CHRONO_MAX_SECS
}

/// The time that a cursor's filter compares with.
pub open spec fn spec_cursor_time(ts: i64) -> Seq<char> {
    spec_utc_rfc3339(spec_cursor_second(ts), CURSOR_TIMESTAMP_TOLERANCE_NS)
}

/// The filter that a cursor adds to a post query.
pub open spec fn spec_and_filter(time: Seq<char>) -> Seq<char> {
    " AND (\"indexedAt\" < '"@ + time + "')"@
}

/// The filter that a cursor adds to a repost query.
pub open spec fn spec_where_filter(time: Seq<char>) -> Seq<char> {
    " WHERE (\"indexedAt\" < '"@ + time + "')"@
}

/// The cursor of a page whose last post was indexed at `millis` and has the
/// content id `cid`.
pub open spec fn spec_cursor_text(millis: i64, cid: Seq<char>) -> Seq<char> {
    spec_int_text(millis as int) + "::"@ + cid
}

proof fn lemma_separator_pos(s: Seq<char>, p: int)
    requires
        0 <= p,
        p + 1 < s.len(),
        s[p] == ':' && s[p + 1] == ':',
        forall|j: int| 0 <= j < p ==> !#[trigger] spec_sep_at(s, j),
    ensures
        spec_separator_pos(s) == Some(p),
    decreases p,
{
    if p > 0 {
        assert(!spec_sep_at(s, 0));
        assert forall|j: int| 0 <= j < p - 1 implies !#[trigger] spec_sep_at(s.skip(1), j) by {
            assert(!spec_sep_at(s, j + 1));
            assert(s.skip(1)[j] == s[j + 1]);
            assert(s.skip(1)[j + 1] == s[j + 2]);
        }
        lemma_separator_pos(s.skip(1), p - 1);
    }
}

proof fn lemma_no_separator(s: Seq<char>)
    requires
        forall|j: int| 0 <= j && j + 1 < s.len() ==> !#[trigger] spec_sep_at(s, j),
    ensures
        spec_separator_pos(s) is None,
    decreases s.len(),
{
    if s.len() >= 2 {
        assert(!spec_sep_at(s, 0));
        assert forall|j: int| 0 <= j && j + 1 < s.skip(1).len() implies !#[trigger] spec_sep_at(s.skip(1), j) by {
            assert(!spec_sep_at(s, j + 1));
            assert(s.skip(1)[j] == s[j + 1]);
            assert(s.skip(1)[j + 1] == s[j + 2]);
        }
        lemma_no_separator(s.skip(1));
    }
}

/// The millisecond timestamp that a cursor names.
pub fn cursor_timestamp(cursor: &str) -> (r: Option<i64>)
    ensures
        r == spec_cursor_timestamp(cursor@),
{
    let cs = chars_of(cursor);
    let n = cs.len();
    let mut p: usize = 0;
    while n - p >= 2 && !(cs[p] == ':' && cs[p + 1] == ':')
        invariant
            p <= n,
            cs@ == cursor@,
            n == cs@.len(),
            forall|j: int| 0 <= j < p ==> !#[trigger] spec_sep_at(cs@, j),
        decreases n - p,
    {
        p = p + 1;
    }
    if n - p < 2 {
        proof {
            lemma_no_separator(cursor@);
        }
        return None;
    }
    proof {
        lemma_separator_pos(cursor@, p as int);
    }
    let mut head: Vec<char> = Vec::new();
    let mut i: usize = 0;
    while i < p
        invariant
            cs@ == cursor@,
            p < n == cs@.len(),
            i <= p,
            head@ == cursor@.take(i as int),
        decreases p - i,
    {
        head.push(cs[i]);
        i = i + 1;
    }
    let text = string_from_chars(&head, 0);
    assert(text@ =~= cursor@.take(p as int));
    parse_i64(text.as_str())
}

/// The second of a cursor's millisecond timestamp, rounded toward zero.
fn cursor_second(ts: i64) -> (s: i64)
    ensures
        s == spec_cursor_second(ts),
{
    if ts >= 0 {
        ts / 1000
    } else {
        let mag: u64 = if ts == i64::MIN { 9_223_372_036_854_775_808u64 } else { (-ts) as u64 };
        let q: u64 = mag / 1000;
        -(q as i64)
    }
}

/// Whether the feed functions accept a cursor without failing: it names no
/// timestamp, or one whose second chrono can hold.
pub fn cursor_in_range(cursor: &str) -> (r: bool)
    ensures
        r == spec_cursor_in_range(cursor@),
{
    match cursor_timestamp(cursor) {
        None => true,
        Some(ts) => {
            let s = cursor_second(ts);
            CHRONO_MIN_SECS <= s && s <= CHRONO_MAX_SECS
        },
    }
}

/// The time that a cursor's filter compares with.
fn cursor_time(ts: i64) -> (t: String)
    requires
        CHRONO_MIN_SECS <= spec_cursor_second(ts) <= CHRONO_MAX_SECS,
    ensures
        t@ == spec_cursor_time(ts),
{
    match utc_rfc3339(cursor_second(ts), CURSOR_TIMESTAMP_TOLERANCE_NS) {
        Some(t) => t,
        None => {
            assert(false);
            String::new()
        },
    }
}

/// The error of a cursor that names no timestamp.
pub open spec fn spec_malformed_cursor(e: ValidationErrorMessageResponse) -> bool {
    &&& e.code == Some(crate::feedgen::models::ErrorCode::ValidationError)
    &&& e.message matches Some(m) && m@ == "malformed cursor"@
}

/// Adds a cursor's filter to the post and repost queries of the following
/// feed: posts indexed before the cursor's second (plus a small tolerance).
pub fn apply_cursor_to_queries(
    cursor_str: &str,
    query_str: &str,
    repost_query_str: &str,
) -> (r: Result<(String, String), ValidationErrorMessageResponse>)
    requires
        spec_cursor_in_range(cursor_str@),
    ensures
        match spec_cursor_timestamp(cursor_str@) {
            Some(ts) => r matches Ok((q, rq))
                && q@ == query_str@ + spec_and_filter(spec_cursor_time(ts))
                && rq@ == repost_query_str@ + spec_where_filter(spec_cursor_time(ts)),
            None => r matches Err(e) && spec_malformed_cursor(e),
        },
{
    match cursor_timestamp(cursor_str) {
        Some(ts) => {
            let time = cursor_time(ts);
            let mut q = String::from_str(query_str);
            q.append(" AND (\"indexedAt\" < '");
            q.append(time.as_str());
            q.append("')");
            let mut rq = String::from_str(repost_query_str);
            rq.append(" WHERE (\"indexedAt\" < '");
            rq.append(time.as_str());
            rq.append("')");
            assert(q@ =~= query_str@ + spec_and_filter(spec_cursor_time(ts)));
            assert(rq@ =~= repost_query_str@ + spec_where_filter(spec_cursor_time(ts)));
            Ok((q, rq))
        },
        None => Err(ValidationErrorMessageResponse::validation("malformed cursor")),
    }
}

/// Adds a cursor's filter to a single post query.
pub fn apply_cursor_to_single_query(
    cursor_str: &str,
    query_str: &mut String,
) -> (r: Result<(), ValidationErrorMessageResponse>)
    requires
        spec_cursor_in_range(cursor_str@),
    ensures
        match spec_cursor_timestamp(cursor_str@) {
            Some(ts) => r is Ok && final(query_str)@ == old(query_str)@ + spec_and_filter(spec_cursor_time(ts)),
            None => r matches Err(e) && spec_malformed_cursor(e) && final(query_str)@ == old(query_str)@,
        },
{
    match cursor_timestamp(cursor_str) {
        Some(ts) => {
            let time = cursor_time(ts);
            query_str.append(" AND (\"indexedAt\" < '");
            query_str.append(time.as_str());
            query_str.append("')");
            assert(final(query_str)@ =~= old(query_str)@ + spec_and_filter(spec_cursor_time(ts)));
            Ok(())
        },
        None => Err(ValidationErrorMessageResponse::validation("malformed cursor")),
    }
}

/// The cursor of a page that ends with `last_post`: the millisecond time at
/// which it was indexed and its content id; `None` where there is no last
/// post or its time cannot be read.
pub fn generate_cursor_from_last_post(last_post: Option<&Post>) -> (r: Option<String>)
    ensures
        match last_post {
            None => r is None,
            Some(p) => match spec_rfc3339_millis(p.indexed_at@) {
                Some(ms) => r matches Some(c) && c@ == spec_cursor_text(ms, p.cid@),
                None => r is None,
            },
        },
{
    match last_post {
        None => None,
        Some(p) => match rfc3339_millis(p.indexed_at.as_str()) {
            Some(ms) => Some(cursor_text(ms, p.cid.as_str())),
            None => None,
        },
    }
}

/// The cursor of a page whose last post was indexed at `millis` and has the
/// content id `cid`.
pub fn cursor_text(millis: i64, cid: &str) -> (c: String)
    ensures
        c@ == spec_cursor_text(millis, cid@),
{
    let mut c = i64_text(millis);
    c.append("::");
    c.append(cid);
    c
}

/// A cursor that this library writes names the timestamp it was written
/// with, whatever the content id holds.
pub proof fn law_cursor_roundtrip(millis: i64, cid: Seq<char>)
    ensures
        spec_cursor_timestamp(spec_cursor_text(millis, cid)) == Some(millis),
{
    reveal_strlit("::");
    let t = spec_int_text(millis as int);
    let c = spec_cursor_text(millis, cid);
    lemma_int_text_no_colon(millis as int);
    law_parse_int_text(millis as int);
    assert(c.take(t.len() as int) =~= t);
    assert(c[t.len() as int] == ':');
    assert(c[t.len() as int + 1] == ':');
    assert forall|j: int| 0 <= j < t.len() implies !#[trigger] spec_sep_at(c, j) by {
        assert(c[j] == t[j]);
    }
    lemma_separator_pos(c, t.len() as int);
}

} // verus!
