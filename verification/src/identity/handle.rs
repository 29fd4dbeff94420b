//! Handle resolution: reading a DID out of DNS TXT records or out of a
//! `/.well-known/atproto-did` response.
use vstd::prelude::*;
use crate::identity::types::{clone_opt_strings, opt_strings_view, strings_view, HandleResolverOpts};
use crate::text::{chars_of, seq_starts_with, str_starts_with, string_from_chars};

verus! {

/// The DNS label under which a handle publishes its DID.
pub const SUBDOMAIN: &'static str = "_atproto";

/// What a DID TXT record begins with.
pub const PREFIX: &'static str = "did=";

/// A handle resolver's settings; the timeout is in milliseconds.
pub struct HandleResolver {
    pub timeout_ms: u64,
    pub backup_nameservers: Option<Vec<String>>,
}

/// The TXT records among `records` that carry a DID, in order.
pub open spec fn spec_did_records(records: Seq<Seq<char>>) -> Seq<Seq<char>>
    decreases records.len(),
{
    if records.len() == 0 {
        Seq::empty()
    } else if seq_starts_with(records.last(), "did="@) {
        spec_did_records(records.drop_last()).push(records.last())
    } else {
        spec_did_records(records.drop_last())
    }
}

/// The DID that a set of TXT records names: the record text after `did=`,
/// where exactly one record carries a DID.
pub open spec fn spec_parse_dns_result(records: Seq<Seq<char>>) -> Option<Seq<char>> {
    let found = spec_did_records(records);
    if found.len() == 1 {
        Some(found[0].skip(4))
    } else {
        None
    }
}

/// The characters that Unicode gives the White_Space property.
pub open spec fn spec_is_whitespace(c: char) -> bool {
    ||| ('\u{9}' <= c && c <= '\u{d}')
    ||| c == ' '
    ||| c == '\u{85}'
    ||| c == '\u{a0}'
    ||| c == '\u{1680}'
    ||| ('\u{2000}' <= c && c <= '\u{200a}')
    ||| c == '\u{2028}'
    ||| c == '\u{2029}'
    ||| c == '\u{202f}'
    ||| c == '\u{205f}'
    ||| c == '\u{3000}'
}

/// `s` without its leading whitespace.
pub open spec fn spec_trim_start(s: Seq<char>) -> Seq<char>
    decreases s.len(),
{
    if s.len() > 0 && spec_is_whitespace(s[0]) {
        spec_trim_start(s.skip(1))
    } else {
        s
    }
}

/// `s` without its trailing whitespace.
pub open spec fn spec_trim_end(s: Seq<char>) -> Seq<char>
    decreases s.len(),
{
    if s.len() > 0 && spec_is_whitespace(s.last()) {
        spec_trim_end(s.drop_last())
    } else {
        s
    }
}

/// Where the first line of `s` ends: the index of its first newline, or its
/// length.
pub open spec fn spec_line_end(s: Seq<char>) -> int
    decreases s.len(),
{
    if s.len() == 0 || s[0] == '\n' {
        0
    } else {
        1 + spec_line_end(s.skip(1))
    }
}

/// The DID that a `/.well-known/atproto-did` response names: its first line
/// without surrounding whitespace, where that begins with `did:`.
pub open spec fn spec_parse_well_known(body: Seq<char>) -> Option<Seq<char>> {
    let line = spec_trim_end(spec_trim_start(body.take(spec_line_end(body))));
    if seq_starts_with(line, "did:"@) {
        Some(line)
    } else {
        None
    }
}

/// Whether `c` has the Unicode White_Space property.
pub fn is_whitespace(c: char) -> (r: bool)
    ensures
        r == spec_is_whitespace(c),
{
    ('\u{9}' <= c && c <= '\u{d}') || c == ' ' || c == '\u{85}' || c == '\u{a0}' || c == '\u{1680}'
        || ('\u{2000}' <= c && c <= '\u{200a}') || c == '\u{2028}' || c == '\u{2029}'
        || c == '\u{202f}' || c == '\u{205f}' || c == '\u{3000}'
}

proof fn lemma_line_end(s: Seq<char>, p: int)
    requires
        0 <= p <= s.len(),
        p == s.len() || s[p] == '\n',
        forall|j: int| 0 <= j < p ==> s[j] != '\n',
    ensures
        spec_line_end(s) == p,
    decreases p,
{
    if p > 0 {
        assert forall|j: int| 0 <= j < p - 1 implies s.skip(1)[j] != '\n' by {
            assert(s.skip(1)[j] == s[j + 1]);
        }
        lemma_line_end(s.skip(1), p - 1);
    }
}

/// The DID that a `/.well-known/atproto-did` response body names.
pub fn parse_well_known_body(body: &str) -> (r: Option<String>)
    ensures
        match r {
            Some(d) => spec_parse_well_known(body@) == Some(d@),
            None => spec_parse_well_known(body@) is None,
        },
{
    let cs = chars_of(body);
    let n = cs.len();
    let mut end: usize = 0;
    while end < n && cs[end] != '\n'
        invariant
            cs@ == body@,
            n == cs@.len(),
            end <= n,
            forall|j: int| 0 <= j < end ==> cs@[j] != '\n',
        decreases n - end,
    {
        end = end + 1;
    }
    proof {
        lemma_line_end(body@, end as int);
    }
    let ghost line = body@.take(end as int);
    let mut start: usize = 0;
    assert(line.skip(0) =~= line);
    while start < end && is_whitespace(cs[start])
        invariant
            cs@ == body@,
            end <= n == cs@.len(),
            start <= end,
            line == body@.take(end as int),
            spec_trim_start(line) == spec_trim_start(line.skip(start as int)),
        decreases end - start,
    {
        assert(line.skip(start as int).skip(1) =~= line.skip(start + 1));
        start = start + 1;
    }
    let ghost head = line.skip(start as int);
    assert(spec_trim_start(line) == head);
    let mut stop: usize = end;
    assert(head.take(head.len() as int) =~= head);
    while stop > start && is_whitespace(cs[stop - 1])
        invariant
            cs@ == body@,
            end <= n == cs@.len(),
            start <= stop <= end,
            head == body@.subrange(start as int, end as int),
            spec_trim_end(head) == spec_trim_end(head.take(stop - start)),
        decreases stop - start,
    {
        assert(head.take(stop - start).drop_last() =~= head.take(stop - start - 1));
        stop = stop - 1;
    }
    assert(head.take(stop - start) =~= body@.subrange(start as int, stop as int));
    let mut trimmed_chars: Vec<char> = Vec::new();
    let mut k: usize = start;
    while k < stop
        invariant
            cs@ == body@,
            start <= k <= stop <= n == cs@.len(),
            trimmed_chars@ == body@.subrange(start as int, k as int),
        decreases stop - k,
    {
        trimmed_chars.push(cs[k]);
        k = k + 1;
    }
    let trimmed = string_from_chars(&trimmed_chars, 0);
    assert(trimmed@ =~= spec_trim_end(spec_trim_start(line)));
    proof {
        reveal_strlit("did:");
    }
    if str_starts_with(trimmed.as_str(), "did:") {
        Some(trimmed)
    } else {
        None
    }
}

proof fn lemma_did_records_push(s: Seq<Seq<char>>, x: Seq<char>)
    ensures
        spec_did_records(s.push(x)) == if seq_starts_with(x, "did="@) {
            spec_did_records(s).push(x)
        } else {
            spec_did_records(s)
        },
{
    assert(s.push(x).drop_last() =~= s);
}

proof fn lemma_did_records_len(s: Seq<Seq<char>>)
    ensures
        spec_did_records(s).len() <= s.len(),
    decreases s.len(),
{
    if s.len() > 0 {
        lemma_did_records_len(s.drop_last());
    }
}

proof fn lemma_did_records_prefixed(s: Seq<Seq<char>>)
    ensures
        forall|k: int| 0 <= k < spec_did_records(s).len() ==> seq_starts_with(#[trigger] spec_did_records(s)[k], "did="@),
    decreases s.len(),
{
    if s.len() > 0 {
        lemma_did_records_prefixed(s.drop_last());
        let prev = spec_did_records(s.drop_last());
        assert forall|k: int| 0 <= k < spec_did_records(s).len() implies seq_starts_with(#[trigger] spec_did_records(s)[k], "did="@) by {
            if k < prev.len() {
                assert(spec_did_records(s)[k] == prev[k]);
            }
        }
    }
}

impl HandleResolver {
    /// A resolver with the given settings; the timeout defaults to 3000 ms.
    pub fn new(opts: HandleResolverOpts) -> (r: HandleResolver)
        ensures
            r.timeout_ms == match opts.timeout_ms { Some(t) => t, None => 3000 },
            opt_strings_view(r.backup_nameservers) == opt_strings_view(opts.backup_nameservers),
    {
        HandleResolver {
            timeout_ms: match opts.timeout_ms { Some(t) => t, None => 3000 },
            backup_nameservers: clone_opt_strings(&opts.backup_nameservers),
        }
    }

    /// The DID that a handle's TXT records name: `None` unless exactly one
    /// record begins with `did=`.
    pub fn parse_dns_result(&self, results: Vec<String>) -> (r: Option<String>)
        ensures
            match r {
                Some(d) => spec_parse_dns_result(strings_view(results@)) == Some(d@),
                None => spec_parse_dns_result(strings_view(results@)) is None,
            },
    {
        let ghost rv = strings_view(results@);
        proof {
            reveal_strlit("did=");
        }
        let mut count: usize = 0;
        let mut first: usize = 0;
        let mut i: usize = 0;
        assert(rv.take(0) =~= Seq::<Seq<char>>::empty());
        while i < results.len()
            invariant
                rv == strings_view(results@),
                i <= results@.len(),
                count == spec_did_records(rv.take(i as int)).len(),
                count >= 1 ==> first < results@.len() && spec_did_records(rv.take(i as int))[0] == results@[first as int]@,
            decreases results@.len() - i,
        {
            proof {
                assert(rv.take(i + 1) =~= rv.take(i as int).push(rv[i as int]));
                lemma_did_records_push(rv.take(i as int), rv[i as int]);
                lemma_did_records_len(rv.take(i as int));
            }
            if str_starts_with(results[i].as_str(), "did=") {
                if count == 0 {
                    first = i;
                }
                count = count + 1;
            }
            i = i + 1;
        }
        assert(rv.take(i as int) =~= rv);
        if count != 1 {
            None
        } else {
            proof {
                lemma_did_records_prefixed(rv);
                assert(seq_starts_with(spec_did_records(rv)[0], "did="@));
            }
            let cs = chars_of(results[first].as_str());
            let d = string_from_chars(&cs, 4);
            assert(d@ =~= results@[first as int]@.skip(4));
            Some(d)
        }
    }
}

} // verus!
