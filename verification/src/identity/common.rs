//! Time units and percent-encoding of URI components.
use vstd::prelude::*;
use vstd::utf8::{char_u32_cast, decode_utf8, encode_utf8, encode_utf8_decode_utf8, is_ascii_chars, is_ascii_chars_encode_utf8, valid_utf8};

verus! {

/// Milliseconds in a second.
pub const SECOND: i32 = 1000;
/// Milliseconds in a minute.
pub const MINUTE: i32 = 60000;
/// Milliseconds in an hour.
pub const HOUR: i32 = 3600000;
/// Milliseconds in a day.
pub const DAY: i32 = 86400000;

/// A byte that percent-encoding leaves as it is: an ASCII letter or digit,
/// `-`, `.`, `_` or `~`.
pub open spec fn spec_unreserved(b: u8) -> bool {
    (0x30 <= b <= 0x39) || (0x41 <= b <= 0x5a) || (0x61 <= b <= 0x7a) || b == 0x2d || b == 0x2e || b == 0x5f
        || b == 0x7e
}

/// The upper-case hexadecimal digit of `d` (below 16).
pub open spec fn spec_hex_digit(d: int) -> char {
    if d < 10 { (48 + d) as char } else { (55 + d) as char }
}

/// The text of one byte: the byte itself where it is unreserved, else `%`
/// and its two upper-case hexadecimal digits.
pub open spec fn spec_escape(b: u8) -> Seq<char> {
    if spec_unreserved(b) {
        seq![b as char]
    } else {
        seq!['%', spec_hex_digit(b as int / 16), spec_hex_digit(b as int % 16)]
    }
}

/// The percent-encoding of a byte string.
pub open spec fn spec_pct_encode(b: Seq<u8>) -> Seq<char>
    decreases b.len(),
{
    if b.len() == 0 {
        seq![]
    } else {
        spec_escape(b[0]) + spec_pct_encode(b.drop_first())
    }
}

/// What `urlencoding::encode` gives for a string: the percent-encoding of
/// its UTF-8 bytes.
pub open spec fn spec_url_encode(s: Seq<char>) -> Seq<char> {
    spec_pct_encode(encode_utf8(s))
}

/// The value of a hexadecimal digit byte (either case).
pub open spec fn spec_hex_value(b: u8) -> Option<int> {
    if 0x30 <= b <= 0x39 {
        Some(b - 0x30)
    } else if 0x41 <= b <= 0x46 {
        Some(b - 0x41 + 10)
    } else if 0x61 <= b <= 0x66 {
        Some(b - 0x61 + 10)
    } else {
        None
    }
}

/// Percent-decoding of a byte string: each `%` followed by two hexadecimal
/// digits becomes the byte they name; every other byte, a `%` that is not
/// followed by two digits included, stays as it is.
pub open spec fn spec_pct_decode(b: Seq<u8>) -> Seq<u8>
    decreases b.len(),
{
    if b.len() == 0 {
        seq![]
    } else if b[0] == 0x25 && b.len() >= 3 && spec_hex_value(b[1]) is Some && spec_hex_value(b[2]) is Some {
        seq![(spec_hex_value(b[1])->Some_0 * 16 + spec_hex_value(b[2])->Some_0) as u8] + spec_pct_decode(b.skip(3))
    } else {
        seq![b[0]] + spec_pct_decode(b.drop_first())
    }
}

/// What `urlencoding::decode` gives for a string: the string itself where it
/// holds no `%`; else the percent-decoding of its UTF-8 bytes read as UTF-8,
/// or `None` where they are not UTF-8.
pub open spec fn spec_url_decode(s: Seq<char>) -> Option<Seq<char>> {
    if !s.contains('%') {
        Some(s)
    } else {
        let d = spec_pct_decode(encode_utf8(s));
        if valid_utf8(d) { Some(decode_utf8(d)) } else { None }
    }
}

/// The bytes of an ASCII text, one per character.
pub open spec fn spec_ascii_bytes(t: Seq<char>) -> Seq<u8> {
    Seq::new(t.len(), |i: int| t[i] as u8)
}

proof fn lemma_escape_ascii(b: u8)
    ensures
        is_ascii_chars(spec_escape(b)),
        spec_ascii_bytes(spec_escape(b)) == if spec_unreserved(b) {
            seq![b]
        } else {
            seq![0x25u8, (spec_hex_digit(b as int / 16) as u8), (spec_hex_digit(b as int % 16) as u8)]
        },
        !spec_unreserved(b) ==> spec_hex_value(spec_hex_digit(b as int / 16) as u8) == Some(b as int / 16)
            && spec_hex_value(spec_hex_digit(b as int % 16) as u8) == Some(b as int % 16),
{
    assert(spec_ascii_bytes(spec_escape(b)) =~= if spec_unreserved(b) {
        seq![b]
    } else {
        seq![0x25u8, (spec_hex_digit(b as int / 16) as u8), (spec_hex_digit(b as int % 16) as u8)]
    });
}

proof fn lemma_pct_encode_ascii(b: Seq<u8>)
    ensures
        is_ascii_chars(spec_pct_encode(b)),
        spec_pct_decode(spec_ascii_bytes(spec_pct_encode(b))) == b,
    decreases b.len(),
{
    if b.len() > 0 {
        let e = spec_escape(b[0]);
        let rest = spec_pct_encode(b.drop_first());
        lemma_escape_ascii(b[0]);
        lemma_pct_encode_ascii(b.drop_first());
        let t = e + rest;
        assert(spec_pct_encode(b) == t);
        assert forall|i: int| 0 <= i < t.len() implies '\0' <= #[trigger] t[i] <= '\u{7f}' by {
            if i < e.len() {
                assert(t[i] == e[i]);
            } else {
                assert(t[i] == rest[i - e.len()]);
            }
        }
        let bytes = spec_ascii_bytes(t);
        assert(bytes =~= spec_ascii_bytes(e) + spec_ascii_bytes(rest));
        if spec_unreserved(b[0]) {
            assert(bytes.drop_first() =~= spec_ascii_bytes(rest));
        } else {
            assert(bytes.skip(3) =~= spec_ascii_bytes(rest));
        }
        assert(b =~= seq![b[0]] + b.drop_first());
    }
}

proof fn lemma_no_escape(t: Seq<char>)
    requires
        is_ascii_chars(t),
        !t.contains('%'),
    ensures
        spec_pct_decode(spec_ascii_bytes(t)) == spec_ascii_bytes(t),
    decreases t.len(),
{
    if t.len() > 0 {
        let bytes = spec_ascii_bytes(t);
        if bytes[0] == 0x25 {
            char_u32_cast(t[0], 37u32);
            char_u32_cast('%', 37u32);
            assert(t[0] == '%');
            assert(t.contains('%'));
        }
        let rest = t.drop_first();
        assert(is_ascii_chars(rest)) by {
            assert forall|i: int| 0 <= i < rest.len() implies '\0' <= #[trigger] rest[i] <= '\u{7f}' by {
                assert(rest[i] == t[i + 1]);
            }
        }
        assert(!rest.contains('%')) by {
            if rest.contains('%') {
                let j = choose|j: int| 0 <= j < rest.len() && rest[j] == '%';
                assert(t[j + 1] == '%');
            }
        }
        lemma_no_escape(rest);
        assert(bytes.drop_first() =~= spec_ascii_bytes(rest));
        assert(bytes =~= seq![bytes[0]] + bytes.drop_first());
    }
}

/// Decoding the percent-encoding of a string gives the string back.
proof fn lemma_url_round_trip(s: Seq<char>)
    ensures
        spec_url_decode(spec_url_encode(s)) == Some(s),
{
    broadcast use vstd::utf8::group_utf8_lib;
    let t = spec_url_encode(s);
    lemma_pct_encode_ascii(encode_utf8(s));
    is_ascii_chars_encode_utf8(t);
    assert(encode_utf8(t) =~= spec_ascii_bytes(t));
    if !t.contains('%') {
        lemma_no_escape(t);
        encode_utf8_decode_utf8(t);
        encode_utf8_decode_utf8(s);
    }
}

/// Calls `urlencoding::encode`. Claims that the result is
/// `spec_url_encode` of the input, as enc.rs writes it: every UTF-8 byte but
/// the unreserved ones becomes `%` and two upper-case hexadecimal digits.
#[verifier::external_body]
fn url_encode(s: &str) -> (r: String)
    ensures
        r@ == spec_url_encode(s@),
{
    ::urlencoding::encode(s).into_owned()
}

/// Calls `urlencoding::decode`. Claims that the result is
/// `spec_url_decode` of the input, as dec.rs computes it: the input itself
/// where it holds no `%`, else the percent-decoded bytes where they are UTF-8,
/// and an error otherwise.
#[verifier::external_body]
fn url_decode(s: &str) -> (r: Option<String>)
    ensures
        match r {
            Some(d) => spec_url_decode(s@) == Some(d@),
            None => spec_url_decode(s@) is None,
        },
{
    match ::urlencoding::decode(s) {
        Ok(d) => Some(d.into_owned()),
        Err(_) => None,
    }
}

/// Decoding failed: the percent-escapes do not form UTF-8.
#[derive(Debug)]
pub struct InvalidUtf8Escape;

/// Percent-encodes a URI component. Decoding the result gives `input` back.
pub fn encode_uri_component(input: &str) -> (r: String)
    ensures
        r@ == spec_url_encode(input@),
        spec_url_decode(r@) == Some(input@),
{
    let r = url_encode(input);
    proof {
        lemma_url_round_trip(input@);
    }
    r
}

/// Decodes a percent-encoded URI component.
pub fn decode_uri_component(input: &str) -> (r: Result<String, InvalidUtf8Escape>)
    ensures
        match r {
            Ok(d) => spec_url_decode(input@) == Some(d@) && (!input@.contains('%') ==> d@ == input@),
            Err(_) => spec_url_decode(input@) is None && input@.contains('%'),
        },
{
    match url_decode(input) {
        Some(d) => Ok(d),
        None => Err(InvalidUtf8Escape),
    }
}

} // verus!
