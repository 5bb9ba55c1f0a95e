//! Bytes and text: comparing strings, appending text to a frame, and integers in
//! decimal notation.

use std::borrow::Cow;
use vstd::prelude::*;

verus! {

/// The UTF-8 bytes of a string.
pub open spec fn utf8(s: Seq<char>) -> Seq<u8> {
    vstd::utf8::encode_utf8(s)
}

/// Strings with the same bytes are the same string.
pub proof fn lemma_utf8_injective(a: Seq<char>, b: Seq<char>)
    requires
        utf8(a) == utf8(b),
    ensures
        a == b,
{
    vstd::utf8::encode_utf8_decode_utf8(a);
    vstd::utf8::encode_utf8_decode_utf8(b);
}

/// Whether two byte strings are equal.
pub fn bytes_eq(a: &[u8], b: &[u8]) -> (r: bool)
    ensures
        r == (a@ == b@),
{
    if a.len() != b.len() {
        return false;
    }
    let mut i: usize = 0;
    while i < a.len()
        invariant
            i <= a.len(),
            a.len() == b.len(),
            forall|j: int| 0 <= j < i ==> a@[j] == b@[j],
        decreases a.len() - i,
    {
        if a[i] != b[i] {
            return false;
        }
        i += 1;
    }
    assert(a@ =~= b@);
    true
}

/// Whether two strings are equal.
pub fn str_eq(a: &str, b: &str) -> (r: bool)
    ensures
        r == (a@ == b@),
{
    let r = bytes_eq(a.as_bytes(), b.as_bytes());
    proof {
        if r {
            lemma_utf8_injective(a@, b@);
        }
    }
    r
}

/// Something that holds text.
pub trait AsText {
    /// The text.
    spec fn text(&self) -> Seq<char>;

    /// The text.
    fn as_text(&self) -> (r: &str)
        ensures
            r@ == self.text(),
    ;
}

impl AsText for String {
    open spec fn text(&self) -> Seq<char> {
        self@
    }

    fn as_text(&self) -> (r: &str) {
        self.as_str()
    }
}

impl<'a> AsText for &'a str {
    open spec fn text(&self) -> Seq<char> {
        self@
    }

    fn as_text(&self) -> (r: &str) {
        *self
    }
}

impl<'a> AsText for Cow<'a, str> {
    open spec fn text(&self) -> Seq<char> {
        match *self {
            Cow::Borrowed(s) => s@,
            Cow::Owned(s) => s@,
        }
    }

    fn as_text(&self) -> (r: &str) {
        match self {
            Cow::Borrowed(s) => s,
            Cow::Owned(s) => s.as_str(),
        }
    }
}

/// Appends the bytes of `s` to `out`.
pub fn push_str(out: &mut Vec<u8>, s: &str)
    ensures
        final(out)@ == old(out)@ + utf8(s@),
{
    out.extend_from_slice(s.as_bytes());
    assert(out@ =~= old(out)@ + utf8(s@));
}

/// Number of bytes that stand before the first `stop` in `s`, or the length of
/// `s` where it holds no `stop`.
pub open spec fn run_len(s: Seq<u8>, stop: u8) -> nat
    decreases s.len(),
{
    if s.len() == 0 || s[0] == stop {
        0
    } else {
        1 + run_len(s.drop_first(), stop)
    }
}

/// `run_len(s, stop)` is the position of the first `stop` in `s`.
pub proof fn lemma_run_len(s: Seq<u8>, stop: u8)
    ensures
        run_len(s, stop) <= s.len(),
        forall|i: int| 0 <= i < run_len(s, stop) ==> s[i] != stop,
        run_len(s, stop) < s.len() ==> s[run_len(s, stop) as int] == stop,
    decreases s.len(),
{
    if s.len() == 0 || s[0] == stop {
    } else {
        let t = s.drop_first();
        lemma_run_len(t, stop);
        assert forall|i: int| 0 <= i < run_len(s, stop) implies s[i] != stop by {
            if i > 0 {
                assert(s[i] == t[i - 1]);
            }
        }
        if run_len(s, stop) < s.len() {
            assert(s[run_len(s, stop) as int] == t[run_len(t, stop) as int]);
        }
    }
}

/// A `stop` at `i` with none before it is the first.
pub proof fn lemma_run_len_is(s: Seq<u8>, stop: u8, i: int)
    requires
        0 <= i <= s.len(),
        forall|j: int| 0 <= j < i ==> s[j] != stop,
        i < s.len() ==> s[i] == stop,
    ensures
        run_len(s, stop) == i,
{
    lemma_run_len(s, stop);
    let n = run_len(s, stop) as int;
    if n < i {
        assert(s[n] != stop);
    } else if i < n {
        assert(s[i] == stop);
    }
}

/// Finds the first `stop` in `s` from `start` on: its position, or the length
/// of `s` where there is none.
pub fn find_byte(s: &[u8], start: usize, stop: u8) -> (r: usize)
    requires
        start <= s.len(),
    ensures
        start <= r <= s.len(),
        r - start == run_len(s@.skip(start as int), stop),
{
    let mut end: usize = start;
    while end < s.len() && s[end] != stop
        invariant
            start <= end <= s.len(),
            forall|j: int| start <= j < end ==> s@[j] != stop,
        decreases s.len() - end,
    {
        end += 1;
    }
    proof {
        let rest = s@.skip(start as int);
        assert forall|j: int| 0 <= j < end - start implies rest[j] != stop by {
            assert(rest[j] == s@[start + j]);
        }
        if end < s.len() {
            assert(rest[end - start] == s@[end as int]);
        }
        lemma_run_len_is(rest, stop, end - start);
    }
    end
}

/// The byte of the decimal digit `d`.
pub open spec fn digit_byte(d: int) -> u8 {
    (48 + d) as u8
}

/// The decimal digits of `n`, most significant first, without leading zeros.
pub open spec fn digits(n: nat) -> Seq<u8>
    decreases n,
{
    if n < 10 {
        seq![digit_byte(n as int)]
    } else {
        digits(n / 10).push(digit_byte((n % 10) as int))
    }
}

/// `n` in decimal notation, with a leading minus sign where it is negative.
pub open spec fn decimal(n: int) -> Seq<u8> {
    if n < 0 {
        seq![45u8] + digits((-n) as nat)
    } else {
        digits(n as nat)
    }
}

/// Whether `b` is the byte of a decimal digit.
pub open spec fn is_digit(b: u8) -> bool {
    48 <= b <= 57
}

/// Whether `s` is made of decimal digits only.
pub open spec fn all_digits(s: Seq<u8>) -> bool {
    forall|i: int| 0 <= i < s.len() ==> is_digit(#[trigger] s[i])
}

/// The number that the decimal digits `s` stand for; zero for no digits.
pub open spec fn digits_value(s: Seq<u8>) -> nat
    decreases s.len(),
{
    if s.len() == 0 {
        0
    } else {
        (digits_value(s.drop_last()) * 10 + (s.last() - 48)) as nat
    }
}

/// The integer that `text` stands for, where `text` is an optional minus sign
/// followed by at least one decimal digit and the integer fits in 64 bits.
pub open spec fn integer_value(text: Seq<u8>) -> Option<i64> {
    if text.len() > 0 && text[0] == 45u8 {
        let body = text.skip(1);
        if body.len() > 0 && all_digits(body) && digits_value(body) <= 0x8000_0000_0000_0000 {
            Some((-(digits_value(body) as int)) as i64)
        } else {
            None
        }
    } else {
        if text.len() > 0 && all_digits(text) && digits_value(text) <= 0x7fff_ffff_ffff_ffff {
            Some(digits_value(text) as i64)
        } else {
            None
        }
    }
}

/// A number is at least the number that its leading digits stand for.
pub proof fn lemma_digits_value_prefix(s: Seq<u8>, k: int)
    requires
        0 <= k <= s.len(),
        all_digits(s),
    ensures
        digits_value(s.take(k)) <= digits_value(s),
    decreases s.len() - k,
{
    if k == s.len() {
        assert(s.take(k) =~= s);
    } else {
        lemma_digits_value_prefix(s.drop_last(), k);
        assert(s.drop_last().take(k) =~= s.take(k));
        assert(is_digit(s[s.len() - 1]));
    }
}

/// The digits of a number are digits, and stand for that number.
pub proof fn lemma_digits(n: nat)
    ensures
        digits(n).len() > 0,
        all_digits(digits(n)),
        digits_value(digits(n)) == n,
    decreases n,
{
    if n < 10 {
        let s = digits(n);
        assert(s.drop_last() =~= Seq::<u8>::empty());
        assert(digits_value(s.drop_last()) == 0);
    } else {
        lemma_digits(n / 10);
        let s = digits(n);
        assert(s.drop_last() =~= digits(n / 10));
        assert(s.last() == digit_byte((n % 10) as int));
    }
}

/// Reading back an integer written in decimal notation gives that integer.
pub proof fn lemma_decimal_round_trip(n: i64)
    ensures
        integer_value(decimal(n as int)) == Some(n),
{
    let text = decimal(n as int);
    if n < 0 {
        let m = (-(n as int)) as nat;
        lemma_digits(m);
        assert(text.skip(1) =~= digits(m));
    } else {
        lemma_digits(n as nat);
        assert(is_digit(text[0]));
    }
}

/// Appends `n` in decimal notation to `out`.
pub fn push_decimal(out: &mut Vec<u8>, n: i64)
    ensures
        final(out)@ == old(out)@ + decimal(n as int),
{
    let magnitude: u64 = if n < 0 {
        out.push(45u8);
        ((-(n + 1)) as u64) + 1
    } else {
        n as u64
    };
    let ghost prefix = out@;
    let mut reversed: Vec<u8> = Vec::new();
    let mut rest: u64 = magnitude / 10;
    reversed.push(48u8 + (magnitude % 10) as u8);
    while rest > 0
        invariant
            reversed@.len() > 0,
            digits(magnitude as nat) == if rest > 0 {
                digits(rest as nat) + reversed@.reverse()
            } else {
                reversed@.reverse()
            },
        decreases rest,
    {
        let ghost before = reversed@;
        let digit: u8 = 48u8 + (rest % 10) as u8;
        reversed.push(digit);
        proof {
            assert(reversed@.reverse() =~= seq![digit] + before.reverse());
            if rest >= 10 {
                assert(digits(rest as nat) + before.reverse() =~= digits((rest / 10) as nat)
                    + reversed@.reverse());
            } else {
                assert(digits(rest as nat) + before.reverse() =~= reversed@.reverse());
            }
        }
        rest = rest / 10;
    }
    let mut i: usize = reversed.len();
    while i > 0
        invariant
            i <= reversed@.len(),
            out@ == prefix + reversed@.reverse().take(reversed@.len() - i),
        decreases i,
    {
        i -= 1;
        out.push(reversed[i]);
        assert(out@ =~= prefix + reversed@.reverse().take(reversed@.len() - i));
    }
    assert(reversed@.reverse().take(reversed@.len() as int) =~= reversed@.reverse());
    assert(out@ =~= old(out)@ + decimal(n as int));
}

/// Reads an integer in decimal notation: an optional minus sign, then digits.
/// Gives nothing where `text` is not of that form or the integer does not fit.
pub fn parse_decimal(text: &[u8]) -> (r: Option<i64>)
    ensures
        r == integer_value(text@),
{
    let negative: bool = text.len() > 0 && text[0] == 45u8;
    let start: usize = if negative {
        1
    } else {
        0
    };
    if start == text.len() {
        return None;
    }
    let limit: u64 = if negative {
        0x8000_0000_0000_0000
    } else {
        0x7fff_ffff_ffff_ffff
    };
    let ghost body = text@.skip(start as int);
    let mut value: u64 = 0;
    let mut i: usize = start;
    while i < text.len()
        invariant
            start <= i <= text.len(),
            body == text@.skip(start as int),
            all_digits(body.take(i - start)),
            value == digits_value(body.take(i - start)),
            value <= limit,
            negative == (text@.len() > 0 && text@[0] == 45u8),
            start == if negative { 1usize } else { 0usize },
            limit == if negative { 0x8000_0000_0000_0000u64 } else { 0x7fff_ffff_ffff_ffffu64 },
        decreases text.len() - i,
    {
        let byte: u8 = text[i];
        let ghost next = body.take(i - start + 1);
        proof {
            assert(next.drop_last() =~= body.take(i - start));
            assert(next.last() == byte);
        }
        if byte < 48 || byte > 57 {
            proof {
                assert(!is_digit(body[i - start]));
                if !negative {
                    assert(body =~= text@);
                }
            }
            return None;
        }
        let digit: u64 = (byte - 48) as u64;
        if value > (limit - digit) / 10 {
            proof {
                assert(all_digits(next));
                assert(digits_value(next) > limit);
                if all_digits(body) {
                    lemma_digits_value_prefix(body, i - start + 1);
                }
                if !negative {
                    assert(body =~= text@);
                }
            }
            return None;
        }
        value = value * 10 + digit;
        i += 1;
        assert(all_digits(next));
    }
    assert(body.take(i - start) =~= body);
    if negative {
        if value == 0x8000_0000_0000_0000 {
            Some(i64::MIN)
        } else {
            Some(-(value as i64))
        }
    } else {
        assert(body =~= text@);
        Some(value as i64)
    }
}

} // verus!
