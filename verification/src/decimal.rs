//! Decimal text of integers: formatting and parsing, with the law that
//! parsing gives back what formatting wrote.
use vstd::prelude::*;
use crate::text::{chars_of, push_char};

verus! {

/// The digit character of `d`, for `0 <= d < 10`.
pub open spec fn spec_digit_char(d: int) -> char {
    if d == 0 { '0' }
    else if d == 1 { '1' }
    else if d == 2 { '2' }
    else if d == 3 { '3' }
    else if d == 4 { '4' }
    else if d == 5 { '5' }
    else if d == 6 { '6' }
    else if d == 7 { '7' }
    else if d == 8 { '8' }
    else { '9' }
}

/// `c` is an ASCII digit.
pub open spec fn spec_is_digit(c: char) -> bool {
    '0' <= c && c <= '9'
}

/// The value of the ASCII digit `c`.
pub open spec fn spec_digit_value(c: char) -> int {
    (c as int) - ('0' as int)
}

/// The decimal text of a natural number, without leading zeros.
pub open spec fn spec_nat_text(n: nat) -> Seq<char>
    decreases n,
{
    if n < 10 {
        seq![spec_digit_char(n as int)]
    } else {
        spec_nat_text(n / 10).push(spec_digit_char((n % 10) as int))
    }
}

/// The decimal text of an integer, with a leading `-` where it is negative.
pub open spec fn spec_int_text(n: int) -> Seq<char> {
    if n < 0 {
        seq!['-'] + spec_nat_text((-n) as nat)
    } else {
        spec_nat_text(n as nat)
    }
}

/// Every character of `s` is an ASCII digit.
pub open spec fn spec_all_digits(s: Seq<char>) -> bool {
    forall|i: int| 0 <= i < s.len() ==> spec_is_digit(#[trigger] s[i])
}

/// The value of a string of ASCII digits.
pub open spec fn spec_digits_value(s: Seq<char>) -> int
    decreases s.len(),
{
    if s.len() == 0 {
        0
    } else {
        spec_digits_value(s.drop_last()) * 10 + spec_digit_value(s.last())
    }
}

/// The integer that the text `s` writes, as Rust's integer parsing reads it:
/// an optional `+` or `-`, then one or more ASCII digits.
pub open spec fn spec_parse_int(s: Seq<char>) -> Option<int> {
    let neg = s.len() > 0 && s[0] == '-';
    let digits = if s.len() > 0 && (s[0] == '-' || s[0] == '+') { s.skip(1) } else { s };
    if digits.len() == 0 || !spec_all_digits(digits) {
        None
    } else if neg {
        Some(-spec_digits_value(digits))
    } else {
        Some(spec_digits_value(digits))
    }
}

/// What parsing `s` as an `i64` gives: its value where it fits.
pub open spec fn spec_parse_i64(s: Seq<char>) -> Option<i64> {
    match spec_parse_int(s) {
        Some(v) => if i64::MIN <= v && v <= i64::MAX { Some(v as i64) } else { None },
        None => None,
    }
}

/// What parsing `s` as an `i32` gives: its value where it fits.
pub open spec fn spec_parse_i32(s: Seq<char>) -> Option<i32> {
    match spec_parse_int(s) {
        Some(v) => if i32::MIN <= v && v <= i32::MAX { Some(v as i32) } else { None },
        None => None,
    }
}

/// The digit character of `d`.
fn digit_char(d: u64) -> (c: char)
    requires
        d < 10,
    ensures
        c == spec_digit_char(d as int),
{
    if d == 0 { '0' }
    else if d == 1 { '1' }
    else if d == 2 { '2' }
    else if d == 3 { '3' }
    else if d == 4 { '4' }
    else if d == 5 { '5' }
    else if d == 6 { '6' }
    else if d == 7 { '7' }
    else if d == 8 { '8' }
    else { '9' }
}

/// Appends the decimal text of `n` to `s`.
fn push_nat_text(s: &mut String, n: u64)
    ensures
        final(s)@ == old(s)@ + spec_nat_text(n as nat),
    decreases n,
{
    if n < 10 {
        push_char(s, digit_char(n));
        assert(spec_nat_text(n as nat) =~= seq![spec_digit_char(n as int)]);
    } else {
        push_nat_text(s, n / 10);
        push_char(s, digit_char(n % 10));
    }
}

/// The decimal text of `n`.
pub fn u64_text(n: u64) -> (s: String)
    ensures
        s@ == spec_nat_text(n as nat),
{
    let mut s = String::new();
    push_nat_text(&mut s, n);
    assert(s@ =~= spec_nat_text(n as nat));
    s
}

/// The decimal text of `n`.
pub fn i64_text(n: i64) -> (s: String)
    ensures
        s@ == spec_int_text(n as int),
{
    let mut s = String::new();
    if n < 0 {
        push_char(&mut s, '-');
        let m: u64 = if n == i64::MIN { 9_223_372_036_854_775_808u64 } else { (-n) as u64 };
        push_nat_text(&mut s, m);
    } else {
        push_nat_text(&mut s, n as u64);
        assert(s@ =~= spec_nat_text(n as nat));
    }
    s
}

/// Appends the decimal text of `n` to `s`.
pub fn push_i64_text(s: &mut String, n: i64)
    ensures
        final(s)@ == old(s)@ + spec_int_text(n as int),
{
    let t = i64_text(n);
    s.append(t.as_str());
}

/// The value of the ASCII digit `c`.
fn digit_value(c: char) -> (d: u64)
    requires
        spec_is_digit(c),
    ensures
        d == spec_digit_value(c),
        d < 10,
{
    ((c as u32) - ('0' as u32)) as u64
}

proof fn lemma_digits_value_monotone(s: Seq<char>, k: int)
    requires
        0 <= k <= s.len(),
        spec_all_digits(s),
    ensures
        spec_digits_value(s.take(k)) <= spec_digits_value(s),
        0 <= spec_digits_value(s.take(k)),
    decreases s.len() - k,
{
    if k < s.len() {
        assert(s.take(k + 1).drop_last() =~= s.take(k));
        lemma_digits_value_nonneg(s.take(k));
        lemma_digits_value_monotone(s, k + 1);
    } else {
        assert(s.take(k) =~= s);
        lemma_digits_value_nonneg(s);
    }
}

proof fn lemma_digits_value_nonneg(s: Seq<char>)
    requires
        spec_all_digits(s),
    ensures
        0 <= spec_digits_value(s),
    decreases s.len(),
{
    if s.len() > 0 {
        lemma_digits_value_nonneg(s.drop_last());
    }
}

/// Reads the integer that `s` writes, where it fits an `i64`.
pub fn parse_i64(s: &str) -> (r: Option<i64>)
    ensures
        r == spec_parse_i64(s@),
{
    let cs = chars_of(s);
    let n = cs.len();
    let neg = n > 0 && cs[0] == '-';
    let start: usize = if n > 0 && (cs[0] == '-' || cs[0] == '+') { 1 } else { 0 };
    let ghost digits = if s@.len() > 0 && (s@[0] == '-' || s@[0] == '+') { s@.skip(1) } else { s@ };
    assert(digits =~= s@.skip(start as int));
    if start == n {
        return None;
    }
    let limit: u128 = 9_223_372_036_854_775_808u128;
    let mut acc: u128 = 0;
    let mut over = false;
    let mut i: usize = start;
    assert(digits.take(0) =~= Seq::<char>::empty());
    while i < n
        invariant
            cs@ == s@,
            n == cs@.len(),
            start <= i <= n,
            start < n,
            neg == (s@.len() > 0 && s@[0] == '-'),
            digits == (if s@.len() > 0 && (s@[0] == '-' || s@[0] == '+') { s@.skip(1) } else { s@ }),
            digits == s@.skip(start as int),
            limit == 9_223_372_036_854_775_808u128,
            acc <= limit,
            forall|j: int| 0 <= j < i - start ==> spec_is_digit(#[trigger] digits[j]),
            !over ==> acc == spec_digits_value(digits.take(i - start)) && acc <= limit,
            over ==> spec_digits_value(digits.take(i - start)) > limit,
            forall|j: int| 0 <= j < i - start ==> 0 <= spec_digits_value(digits.take(j)),
            0 <= spec_digits_value(digits.take(i - start)),
        decreases n - i,
    {
        let c = cs[i];
        if !('0' <= c && c <= '9') {
            assert(!spec_is_digit(digits[i - start]));
            assert(!spec_all_digits(digits));
            return None;
        }
        let ghost k = i - start;
        assert(digits.take(k + 1).drop_last() =~= digits.take(k));
        assert(digits.take(k + 1).last() == c);
        let d = digit_value(c);
        if !over {
            let next = acc * 10 + (d as u128);
            if next > limit {
                over = true;
            } else {
                acc = next;
            }
        }
        i = i + 1;
    }
    assert(digits.take(n - start) =~= digits);
    assert(spec_all_digits(digits));
    if neg {
        if over {
            None
        } else {
            if acc == limit {
                Some(i64::MIN)
            } else {
                let v: i64 = acc as i64;
                Some(-v)
            }
        }
    } else {
        if over || acc == limit {
            None
        } else {
            Some(acc as i64)
        }
    }
}

/// Reads the integer that `s` writes, where it fits an `i32`.
pub fn parse_i32(s: &str) -> (r: Option<i32>)
    ensures
        r == spec_parse_i32(s@),
{
    match parse_i64(s) {
        Some(v) => if -2147483648 <= v && v <= 2147483647 { Some(v as i32) } else {
            proof {
                if spec_parse_int(s@) is Some {
                    assert(spec_parse_int(s@)->Some_0 == v);
                }
            }
            None
        },
        None => {
            proof {
                if let Some(v) = spec_parse_int(s@) {
                    assert(!(i64::MIN <= v && v <= i64::MAX));
                }
            }
            None
        },
    }
}

proof fn lemma_digit_roundtrip(d: int)
    requires
        0 <= d < 10,
    ensures
        spec_is_digit(spec_digit_char(d)),
        spec_digit_value(spec_digit_char(d)) == d,
{
}

proof fn lemma_nat_text_digits(n: nat)
    ensures
        spec_all_digits(spec_nat_text(n)),
        spec_digits_value(spec_nat_text(n)) == n,
        spec_nat_text(n).len() > 0,
    decreases n,
{
    lemma_digit_roundtrip((n % 10) as int);
    if n < 10 {
        let t = spec_nat_text(n);
        assert(t.drop_last() =~= Seq::<char>::empty());
        assert(spec_digits_value(t.drop_last()) == 0);
        assert(t.last() == spec_digit_char(n as int));
        assert(spec_digits_value(t) == spec_digits_value(t.drop_last()) * 10 + spec_digit_value(t.last()));
    }
    if n >= 10 {
        lemma_nat_text_digits(n / 10);
        let t = spec_nat_text(n);
        assert(t.drop_last() =~= spec_nat_text(n / 10));
        assert(t.last() == spec_digit_char((n % 10) as int));
        assert(spec_digits_value(t) == spec_digits_value(t.drop_last()) * 10 + spec_digit_value(t.last()));
        assert(n == (n / 10) * 10 + n % 10);
        assert forall|i: int| 0 <= i < t.len() implies spec_is_digit(#[trigger] t[i]) by {
            if i < t.len() - 1 {
                assert(t[i] == spec_nat_text(n / 10)[i]);
            }
        }
    }
}

/// Parsing the decimal text of an integer gives the integer back.
pub proof fn law_parse_int_text(n: int)
    ensures
        spec_parse_int(spec_int_text(n)) == Some(n),
{
    if n < 0 {
        let m = (-n) as nat;
        lemma_nat_text_digits(m);
        let t = spec_int_text(n);
        assert(t.skip(1) =~= spec_nat_text(m));
    } else {
        lemma_nat_text_digits(n as nat);
    }
}

/// The decimal text of an integer holds no `:` character.
pub proof fn lemma_int_text_no_colon(n: int)
    ensures
        forall|i: int| 0 <= i < spec_int_text(n).len() ==> #[trigger] spec_int_text(n)[i] != ':',
{
    if n < 0 {
        lemma_nat_text_digits((-n) as nat);
        let t = spec_int_text(n);
        assert forall|i: int| 0 <= i < t.len() implies #[trigger] t[i] != ':' by {
            if i > 0 {
                assert(t[i] == spec_nat_text((-n) as nat)[i - 1]);
            }
        }
    } else {
        lemma_nat_text_digits(n as nat);
    }
}

} // verus!
