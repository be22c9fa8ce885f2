//! Decimal numbers: writing them and reading them.

use vstd::prelude::*;
use crate::text;

verus! {

/// The digit `d`, 0 to 9, as a character.
pub open spec fn digit(d: int) -> char {
    (48 + d) as char
}

/// The decimal digits of `n`.
pub open spec fn dec(n: nat) -> Seq<char>
    decreases n,
{
    if n < 10 {
        seq![digit(n as int)]
    } else {
        dec(n / 10).push(digit((n % 10) as int))
    }
}

/// The decimal digits of `n`, with a minus sign where it is negative.
pub open spec fn dec_int(n: int) -> Seq<char> {
    if n < 0 {
        seq!['-'] + dec((-n) as nat)
    } else {
        dec(n as nat)
    }
}

/// The decimal digits of `n`, with zeros before them up to two digits.
pub open spec fn dec2(n: nat) -> Seq<char> {
    if n < 10 {
        seq!['0'] + dec(n)
    } else {
        dec(n)
    }
}

/// Executable form of [`digit`].
fn digit_char(d: u8) -> (c: char)
    requires
        d < 10,
    ensures
        c == digit(d as int),
{
    (48u8 + d) as char
}

/// Writes a number out in decimal.
pub fn dec_u128(n: u128) -> (s: String)
    ensures
        s@ == dec(n as nat),
    decreases n,
{
    if n < 10 {
        let mut s = String::new();
        s.push(digit_char(n as u8));
        assert(s@ =~= seq![digit(n as int)]);
        s
    } else {
        let mut s = dec_u128(n / 10);
        s.push(digit_char((n % 10) as u8));
        s
    }
}

/// Writes a number out in decimal.
pub fn dec_u64(n: u64) -> (s: String)
    ensures
        s@ == dec(n as nat),
{
    dec_u128(n as u128)
}

/// Writes a signed number out in decimal.
pub fn dec_i64(n: i64) -> (s: String)
    ensures
        s@ == dec_int(n as int),
{
    if n < 0 {
        let m: u128 = (-(n as i128)) as u128;
        let d = dec_u128(m);
        let mut s = String::new();
        s.push('-');
        assert(s@ =~= seq!['-']);
        s.append(d.as_str());
        s
    } else {
        dec_u128(n as u128)
    }
}

/// Writes a number out in decimal with at least two digits.
pub fn dec2_u64(n: u64) -> (s: String)
    ensures
        s@ == dec2(n as nat),
{
    if n < 10 {
        let d = dec_u64(n);
        let mut s = String::new();
        s.push('0');
        assert(s@ =~= seq!['0']);
        s.append(d.as_str());
        s
    } else {
        dec_u64(n)
    }
}

// ---------------------------------------------------------------------------
// Reading
// ---------------------------------------------------------------------------

/// Every character is a decimal digit.
pub open spec fn all_digits(s: Seq<char>) -> bool {
    forall|i: int| 0 <= i < s.len() ==> text::is_digit(#[trigger] s[i])
}

/// The number that a run of decimal digits stands for.
pub open spec fn value(s: Seq<char>) -> nat
    decreases s.len(),
{
    if s.len() == 0 {
        0
    } else {
        value(s.drop_last()) * 10 + (s.last() as int - 48) as nat
    }
}

/// `s` without one plus sign in front of something.
pub open spec fn unsigned(s: Seq<char>) -> Seq<char> {
    if s.len() > 1 && s[0] == '+' {
        s.drop_first()
    } else {
        s
    }
}

/// The number that `s` writes: decimal digits, at least one, with an optional
/// plus sign before them, standing for no more than `max`.
pub open spec fn parse(s: Seq<char>, max: nat) -> Option<nat> {
    let t = unsigned(s);
    if t.len() > 0 && all_digits(t) && value(t) <= max {
        Some(value(t))
    } else {
        None
    }
}

/// Digits in front only make a number larger.
proof fn lemma_value_grows(s: Seq<char>, n: int)
    requires
        0 <= n <= s.len(),
        all_digits(s),
    ensures
        value(s.take(n)) <= value(s),
    decreases s.len() - n,
{
    if n == s.len() {
        assert(s.take(n) =~= s);
    } else {
        lemma_value_grows(s, n + 1);
        assert(s.take(n + 1).drop_last() =~= s.take(n));
    }
}

/// Reads a number of at most `max`.
pub fn parse_max(s: &[char], max: u64) -> (r: Option<u64>)
    ensures
        match r {
            Some(n) => parse(s@, max as nat) == Some(n as nat),
            None => parse(s@, max as nat) is None,
        },
{
    let start: usize = if s.len() > 1 && s[0] == '+' { 1 } else { 0 };
    let ghost t = unsigned(s@);
    assert(t =~= s@.skip(start as int));
    if start == s.len() {
        return None;
    }
    let mut n: u64 = 0;
    let mut i: usize = start;
    while i < s.len()
        invariant
            start <= i <= s@.len(),
            start < s@.len(),
            t == unsigned(s@),
            t == s@.skip(start as int),
            all_digits(t.take(i - start)),
            n == value(t.take(i - start)),
            n <= max,
        decreases s@.len() - i,
    {
        let c = s[i];
        assert(c == t[i - start]);
        if !('0' <= c && c <= '9') {
            assert(!text::is_digit(t[i - start]));
            return None;
        }
        let ghost next = t.take(i - start + 1);
        assert(next.drop_last() =~= t.take(i - start));
        let d: u64 = (c as u8 - 48) as u64;
        assert(value(next) == n * 10 + d);
        let wide: u128 = n as u128 * 10 + d as u128;
        if wide > max as u128 {
            proof {
                if all_digits(t) {
                    lemma_value_grows(t, i - start + 1);
                }
            }
            return None;
        }
        n = wide as u64;
        i += 1;
        assert(all_digits(next)) by {
            assert forall|j: int| 0 <= j < next.len() implies text::is_digit(#[trigger] next[j]) by {
                if j < next.len() - 1 {
                    assert(next[j] == next.drop_last()[j]);
                }
            }
        }
    }
    assert(t.take(t.len() as int) =~= t);
    Some(n)
}

/// Writing a number out and reading it back gives the number.
pub proof fn lemma_dec_parses(n: nat, max: nat)
    requires
        n <= max,
    ensures
        parse(dec(n), max) == Some(n),
{
    lemma_dec(n);
}

/// The digits of a number are digits, stand for it, and start with no sign.
pub proof fn lemma_dec(n: nat)
    ensures
        dec(n).len() > 0,
        all_digits(dec(n)),
        value(dec(n)) == n,
        unsigned(dec(n)) == dec(n),
    decreases n,
{
    if n < 10 {
        let s = dec(n);
        assert(s.drop_last() =~= Seq::<char>::empty());
        assert(value(s.drop_last()) == 0);
        assert(text::is_digit(s[0]));
    } else {
        lemma_dec(n / 10);
        let s = dec(n);
        assert(s.drop_last() =~= dec(n / 10));
        assert forall|j: int| 0 <= j < s.len() implies text::is_digit(#[trigger] s[j]) by {
            if j < s.len() - 1 {
                assert(s[j] == dec(n / 10)[j]);
            }
        }
        assert(text::is_digit(s[0]));
    }
}

/// A number with zeros before it up to a width.
pub open spec fn padded(n: nat, width: nat) -> Seq<char> {
    Seq::new(
        if dec(n).len() < width {
            (width - dec(n).len()) as nat
        } else {
            0
        },
        |i: int| '0',
    ) + dec(n)
}

/// Zeros before digits change nothing.
proof fn lemma_leading_zeros(k: nat, s: Seq<char>)
    requires
        all_digits(s),
    ensures
        all_digits(Seq::new(k, |i: int| '0') + s),
        value(Seq::new(k, |i: int| '0') + s) == value(s),
    decreases s.len() + k,
{
    let front = Seq::new(k, |i: int| '0');
    let t = front + s;
    assert forall|j: int| 0 <= j < t.len() implies text::is_digit(#[trigger] t[j]) by {
        if j >= k {
            assert(t[j] == s[j - k]);
        }
    }
    if s.len() > 0 {
        assert(t.drop_last() =~= front + s.drop_last());
        assert(all_digits(s.drop_last())) by {
            assert forall|j: int| 0 <= j < s.len() - 1 implies text::is_digit(
                #[trigger] s.drop_last()[j],
            ) by {
                assert(s.drop_last()[j] == s[j]);
            }
        }
        lemma_leading_zeros(k, s.drop_last());
    } else if k > 0 {
        let less = (k - 1) as nat;
        assert(t.drop_last() =~= Seq::new(less, |i: int| '0') + s);
        lemma_leading_zeros(less, s);
        assert(t.last() == '0');
    } else {
        assert(t =~= s);
    }
}

/// Writing a number out with leading zeros and reading it back gives the number.
pub proof fn lemma_padded_parses(n: nat, width: nat, max: nat)
    requires
        n <= max,
    ensures
        parse(padded(n, width), max) == Some(n),
{
    lemma_dec(n);
    let k: nat = if dec(n).len() < width {
        (width - dec(n).len()) as nat
    } else {
        0
    };
    lemma_leading_zeros(k, dec(n));
    assert(text::is_digit(padded(n, width)[0]));
}

/// Two digits stand for the number that they were written for.
pub proof fn lemma_dec2(n: nat)
    requires
        n < 100,
    ensures
        dec2(n).len() == 2,
        all_digits(dec2(n)),
        value(dec2(n)) == n,
{
    lemma_dec(n);
    let s = dec2(n);
    if n < 10 {
        assert(dec(n).len() == 1);
        assert(s.drop_last() =~= seq!['0']);
        assert(seq!['0'].drop_last() =~= Seq::<char>::empty());
        assert(value(Seq::<char>::empty()) == 0);
        assert(value(seq!['0']) == 0);
        assert(dec(n).drop_last() =~= Seq::<char>::empty());
        assert forall|i: int| 0 <= i < s.len() implies text::is_digit(#[trigger] s[i]) by {
            if i == 1 {
                assert(s[i] == dec(n)[0]);
            }
        }
    } else {
        assert(dec(n / 10).len() == 1);
    }
}

} // verus!
