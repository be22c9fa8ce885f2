//! Time-based one-time passwords, and the base32 form of their secrets.

use vstd::prelude::*;
use crate::clock;
use crate::crypto;
use crate::digits;
use crate::text;

verus! {

// ---------------------------------------------------------------------------
// Base32
// ---------------------------------------------------------------------------

/// The bit `m` of a byte, counted from the most significant one.
pub open spec fn bit8(b: int, m: int) -> bool {
    if m == 0 {
        b / 128 % 2 == 1
    } else if m == 1 {
        b / 64 % 2 == 1
    } else if m == 2 {
        b / 32 % 2 == 1
    } else if m == 3 {
        b / 16 % 2 == 1
    } else {
        bit5(b % 32, m - 3)
    }
}

/// The bit `m` of a five-bit number, counted from the most significant one.
pub open spec fn bit5(v: int, m: int) -> bool {
    if m == 0 {
        v / 16 % 2 == 1
    } else if m == 1 {
        v / 8 % 2 == 1
    } else if m == 2 {
        v / 4 % 2 == 1
    } else if m == 3 {
        v / 2 % 2 == 1
    } else {
        v % 2 == 1
    }
}

/// A bit as a number.
pub open spec fn worth(b: bool) -> int {
    if b {
        1
    } else {
        0
    }
}

/// The bits of some bytes, the most significant bit of the first byte first.
pub open spec fn bits_of(data: Seq<u8>) -> Seq<bool> {
    Seq::new(8 * data.len(), |j: int| bit8(data[j / 8] as int, j % 8))
}

/// The bit at a place; beyond the end they are all zero.
pub open spec fn bit_at(bits: Seq<bool>, j: int) -> bool {
    0 <= j < bits.len() && bits[j]
}

/// The five bits from a place on as a number.
pub open spec fn five_at(bits: Seq<bool>, j: int) -> int {
    16 * worth(bit_at(bits, j)) + 8 * worth(bit_at(bits, j + 1)) + 4 * worth(bit_at(bits, j + 2))
        + 2 * worth(bit_at(bits, j + 3)) + worth(bit_at(bits, j + 4))
}

/// The eight bits from a place on as a number.
pub open spec fn eight_at(bits: Seq<bool>, j: int) -> int {
    128 * worth(bit_at(bits, j)) + 64 * worth(bit_at(bits, j + 1)) + 32 * worth(
        bit_at(bits, j + 2),
    ) + five_at(bits, j + 3)
}

/// The letter or digit for a five-bit number: the letters, then the digits from 2 to 7.
pub open spec fn symbol(v: int) -> char {
    if v < 26 {
        (65 + v) as char
    } else {
        (24 + v) as char
    }
}

/// Some bytes in base32: a symbol for every five bits, without padding.
pub open spec fn encoded(data: Seq<u8>) -> Seq<char> {
    Seq::new((8 * data.len() + 4) / 5, |i: int| symbol(five_at(bits_of(data), 5 * i)))
}

/// A character that says nothing.
pub open spec fn is_filler(c: char) -> bool {
    c == '=' || text::is_white(c)
}

/// The five-bit number that a character stands for. Small letters count as capitals;
/// of a character, its lowest eight bits are looked at.
pub open spec fn meaning(c: char) -> Option<int> {
    let upper = if 'a' <= c && c <= 'z' {
        c as int - 32
    } else {
        c as int
    };
    let low = upper % 256;
    if 65 <= low <= 90 {
        Some(low - 65)
    } else if 50 <= low <= 55 {
        Some(low - 24)
    } else {
        None
    }
}

/// The characters of a text that say something.
pub open spec fn kept(s: Seq<char>) -> Seq<char>
    decreases s.len(),
{
    if s.len() == 0 {
        Seq::empty()
    } else if is_filler(s.last()) {
        kept(s.drop_last())
    } else {
        kept(s.drop_last()).push(s.last())
    }
}

/// Every character stands for a number.
pub open spec fn all_mean(s: Seq<char>) -> bool {
    forall|i: int| 0 <= i < s.len() ==> meaning(#[trigger] s[i]) is Some
}

/// The bits that symbols stand for.
pub open spec fn symbol_bits(s: Seq<char>) -> Seq<bool> {
    Seq::new(5 * s.len(), |j: int| bit5(meaning(s[j / 5])->0, j % 5))
}

/// The bytes that are full of bits.
pub open spec fn bytes_of(bits: Seq<bool>) -> Seq<u8> {
    Seq::new(bits.len() / 8, |i: int| eight_at(bits, 8 * i) as u8)
}

/// The bytes that a text in base32 stands for; left-over bits are dropped.
pub open spec fn decoded(s: Seq<char>) -> Option<Seq<u8>> {
    if all_mean(kept(s)) {
        Some(bytes_of(symbol_bits(kept(s))))
    } else {
        None
    }
}

/// A five-bit number has the bits that it was made of.
proof fn lemma_five(bits: Seq<bool>, j: int)
    ensures
        0 <= five_at(bits, j) < 32,
        forall|m: int| 0 <= m < 5 ==> #[trigger] bit5(five_at(bits, j), m) == bit_at(bits, j + m),
{
}

/// A symbol stands for its number, and says something.
proof fn lemma_symbol(v: int)
    requires
        0 <= v < 32,
    ensures
        meaning(symbol(v)) == Some(v),
        !is_filler(symbol(v)),
{
}

/// A byte is the number that its bits make.
#[verifier::spinoff_prover]
#[verifier::rlimit(60)]
proof fn lemma_byte(bits: Seq<bool>, j: int, b: u8)
    requires
        forall|m: int| 0 <= m < 8 ==> bit_at(bits, j + m) == #[trigger] bit8(b as int, m),
    ensures
        eight_at(bits, j) == b,
{
    let v = b as int;
    assert(bit_at(bits, j + 0) == bit8(v, 0));
    assert(bit_at(bits, j + 1) == bit8(v, 1));
    assert(bit_at(bits, j + 2) == bit8(v, 2));
    assert(bit_at(bits, j + 3) == bit8(v, 3));
    assert(bit_at(bits, j + 4) == bit8(v, 4));
    assert(bit_at(bits, j + 5) == bit8(v, 5));
    assert(bit_at(bits, j + 6) == bit8(v, 6));
    assert(bit_at(bits, j + 7) == bit8(v, 7));
    assert(bit_at(bits, j + 3 + 1) == bit8(v, 4));
    assert(bit_at(bits, j + 3 + 2) == bit8(v, 5));
    assert(bit_at(bits, j + 3 + 3) == bit8(v, 6));
    assert(bit_at(bits, j + 3 + 4) == bit8(v, 7));
}

/// Where nothing is filler, everything is kept.
proof fn lemma_kept(s: Seq<char>)
    requires
        forall|i: int| 0 <= i < s.len() ==> !is_filler(#[trigger] s[i]),
    ensures
        kept(s) == s,
    decreases s.len(),
{
    if s.len() > 0 {
        lemma_kept(s.drop_last());
        assert(s.drop_last().push(s.last()) =~= s);
    } else {
        assert(kept(s) =~= s);
    }
}

/// Reading base32 gives back the bytes that were written in it.
pub proof fn law_base32_is_read_back(data: Seq<u8>)
    ensures
        decoded(encoded(data)) == Some(data),
{
    let s = encoded(data);
    let bits = bits_of(data);
    assert forall|i: int| 0 <= i < s.len() implies !is_filler(#[trigger] s[i]) && meaning(s[i])
        == Some(five_at(bits, 5 * i)) by {
        lemma_five(bits, 5 * i);
        lemma_symbol(five_at(bits, 5 * i));
    }
    lemma_kept(s);
    let got = symbol_bits(s);
    assert forall|j: int| 0 <= j < got.len() implies #[trigger] got[j] == bit_at(bits, j) by {
        lemma_five(bits, 5 * (j / 5));
        assert(s[j / 5] == symbol(five_at(bits, 5 * (j / 5))));
        assert(bit5(five_at(bits, 5 * (j / 5)), j % 5) == bit_at(bits, 5 * (j / 5) + j % 5));
    }
    let out = bytes_of(got);
    assert(out.len() == data.len());
    assert forall|i: int| 0 <= i < out.len() implies #[trigger] out[i] == data[i] by {
        assert forall|m: int| 0 <= m < 8 implies bit_at(got, 8 * i + m) == #[trigger] bit8(
            data[i] as int,
            m,
        ) by {
            let j = 8 * i + m;
            assert(got[j] == bit_at(bits, j));
            assert(j / 8 == i && j % 8 == m);
        }
        lemma_byte(got, 8 * i, data[i]);
    }
    assert(out =~= data);
}

/// Executable form of [`bit8`].
fn has_bit8(b: u8, m: u8) -> (r: bool)
    requires
        m < 8,
    ensures
        r == bit8(b as int, m as int),
{
    let shifted: u8 = if m == 0 {
        b / 128
    } else if m == 1 {
        b / 64
    } else if m == 2 {
        b / 32
    } else if m == 3 {
        b / 16
    } else if m == 4 {
        b % 32 / 8
    } else if m == 5 {
        b % 32 / 4
    } else if m == 6 {
        b % 32 / 2
    } else {
        b % 32
    };
    shifted % 2 == 1
}

/// Executable form of [`bit5`].
fn has_bit5(v: u8, m: u8) -> (r: bool)
    requires
        m < 5,
    ensures
        r == bit5(v as int, m as int),
{
    let shifted: u8 = if m == 0 {
        v / 16
    } else if m == 1 {
        v / 8
    } else if m == 2 {
        v / 4
    } else if m == 3 {
        v / 2
    } else {
        v
    };
    shifted % 2 == 1
}

/// Executable form of [`worth`].
fn count(b: bool) -> (n: u8)
    ensures
        n == worth(b),
{
    if b {
        1
    } else {
        0
    }
}

/// The bit of some bytes at a place.
fn data_bit(data: &[u8], j: u128) -> (r: bool)
    ensures
        r == bit_at(bits_of(data@), j as int),
{
    let n: u128 = data.len() as u128;
    if j / 8 < n {
        let at: usize = (j / 8) as usize;
        let m: u8 = (j % 8) as u8;
        has_bit8(data[at], m)
    } else {
        false
    }
}

/// Executable form of [`symbol`].
fn symbol_char(v: u8) -> (c: char)
    requires
        v < 32,
    ensures
        c == symbol(v as int),
{
    if v < 26 {
        (65 + v) as char
    } else {
        (24 + v) as char
    }
}

/// Writes bytes in base32, without padding.
pub fn base32_encode(data: &[u8]) -> (s: String)
    ensures
        s@ == encoded(data@),
{
    let n: u128 = data.len() as u128;
    let total: u128 = (8 * n + 4) / 5;
    let ghost bits = bits_of(data@);
    let mut s = String::new();
    let mut i: u128 = 0;
    while i < total
        invariant
            n == data@.len(),
            n <= usize::MAX,
            total == (8 * n + 4) / 5,
            i <= total,
            bits == bits_of(data@),
            s@ =~= encoded(data@).take(i as int),
        decreases total - i,
    {
        let j: u128 = 5 * i;
        let v: u8 = 16 * count(data_bit(data, j)) + 8 * count(data_bit(data, j + 1)) + 4 * count(
            data_bit(data, j + 2),
        ) + 2 * count(data_bit(data, j + 3)) + count(data_bit(data, j + 4));
        assert(v == five_at(bits, 5 * i as int));
        s.push(symbol_char(v));
        i += 1;
    }
    s
}

/// Executable form of [`meaning`].
fn read_symbol(c: char) -> (r: Option<u8>)
    ensures
        match r {
            Some(v) => meaning(c) == Some(v as int) && v < 32,
            None => meaning(c) is None,
        },
{
    let code: u32 = c as u32;
    assert(code == c as int);
    let upper: u32 = if 97 <= code && code <= 122 {
        code - 32
    } else {
        code
    };
    let low: u32 = upper % 256;
    if 65 <= low && low <= 90 {
        Some((low - 65) as u8)
    } else if 50 <= low && low <= 55 {
        Some((low - 24) as u8)
    } else {
        None
    }
}

/// The symbols are the numbers.
spec fn stand_for(s: Seq<char>, values: Seq<u8>) -> bool {
    s.len() == values.len() && forall|i: int|
        0 <= i < s.len() ==> meaning(#[trigger] s[i]) == Some(values[i] as int)
}

/// The bit of some symbols at a place.
fn value_bit(values: &Vec<u8>, j: u128, Ghost(s): Ghost<Seq<char>>) -> (r: bool)
    requires
        stand_for(s, values@),
    ensures
        r == bit_at(symbol_bits(s), j as int),
{
    let n: u128 = values.len() as u128;
    if j / 5 < n {
        let at: usize = (j / 5) as usize;
        let m: u8 = (j % 5) as u8;
        assert(meaning(s[at as int]) == Some(values@[at as int] as int));
        has_bit5(values[at], m)
    } else {
        false
    }
}

/// The five bits from a place on of what values stand for.
fn value_five(values: &Vec<u8>, j: u128, Ghost(symbols): Ghost<Seq<char>>) -> (b: u8)
    requires
        stand_for(symbols, values@),
        j + 5 <= 5 * usize::MAX,
    ensures
        b == five_at(symbol_bits(symbols), j as int),
        b < 32,
{
    16 * count(value_bit(values, j, Ghost(symbols))) + 8 * count(
        value_bit(values, j + 1, Ghost(symbols)),
    ) + 4 * count(value_bit(values, j + 2, Ghost(symbols))) + 2 * count(
        value_bit(values, j + 3, Ghost(symbols)),
    ) + count(value_bit(values, j + 4, Ghost(symbols)))
}

/// The byte from a place on of what values stand for.
fn value_byte(values: &Vec<u8>, j: u128, Ghost(symbols): Ghost<Seq<char>>) -> (b: u8)
    requires
        stand_for(symbols, values@),
        j + 8 <= 5 * usize::MAX,
    ensures
        b == eight_at(symbol_bits(symbols), j as int),
{
    let low = value_five(values, j + 3, Ghost(symbols));
    128 * count(value_bit(values, j, Ghost(symbols))) + 64 * count(
        value_bit(values, j + 1, Ghost(symbols)),
    ) + 32 * count(value_bit(values, j + 2, Ghost(symbols))) + low
}

/// Reads a text in base32; padding and white space are passed over.
pub fn base32_decode(s: &str) -> (r: Option<Vec<u8>>)
    ensures
        match r {
            Some(v) => decoded(s@) == Some(v@),
            None => decoded(s@) is None,
        },
{
    let cs = text::chars_of(s);
    let mut values: Vec<u8> = Vec::new();
    let mut i: usize = 0;
    assert(kept(cs@.take(0)) =~= Seq::empty());
    while i < cs.len()
        invariant
            i <= cs@.len(),
            cs@ == s@,
            stand_for(kept(cs@.take(i as int)), values@),
        decreases cs@.len() - i,
    {
        let c = cs[i];
        let ghost front = cs@.take(i as int);
        let ghost next = cs@.take(i + 1);
        assert(next.drop_last() =~= front);
        assert(next.last() == c);
        if c == '=' || text::white(c) {
            assert(kept(next) == kept(front));
        } else {
            match read_symbol(c) {
                None => {
                    proof {
                        lemma_kept_has(cs@, i as int);
                    }
                    return None;
                },
                Some(v) => {
                    values.push(v);
                },
            }
        }
        i += 1;
    }
    assert(cs@.take(i as int) =~= s@);
    let ghost symbols = kept(s@);
    let ghost bits = symbol_bits(symbols);
    let total: u128 = 5 * (values.len() as u128) / 8;
    let mut out: Vec<u8> = Vec::new();
    let mut k: u128 = 0;
    while k < total
        invariant
            stand_for(symbols, values@),
            bits == symbol_bits(symbols),
            total == 5 * values@.len() / 8,
            values@.len() <= usize::MAX,
            k <= total,
            out@ =~= bytes_of(bits).take(k as int),
        decreases total - k,
    {
        let b = value_byte(&values, 8 * k, Ghost(symbols));
        out.push(b);
        assert(bytes_of(bits)[k as int] == b);
        k += 1;
    }
    assert(all_mean(symbols));
    assert(out@ =~= bytes_of(bits));
    Some(out)
}

/// A character that says something is among those that are kept.
proof fn lemma_kept_has(s: Seq<char>, i: int)
    requires
        0 <= i < s.len(),
        !is_filler(s[i]),
    ensures
        exists|k: int| 0 <= k < kept(s).len() && #[trigger] kept(s)[k] == s[i],
    decreases s.len(),
{
    if i == s.len() - 1 {
        assert(kept(s)[kept(s).len() - 1] == s[i]);
    } else {
        lemma_kept_has(s.drop_last(), i);
        let k = choose|k: int|
            0 <= k < kept(s.drop_last()).len() && #[trigger] kept(s.drop_last())[k] == s[i];
        assert(kept(s)[k] == s[i]);
    }
}

// ---------------------------------------------------------------------------
// Codes
// ---------------------------------------------------------------------------

/// 160 random bits: those of [`crypto::random_bytes`], as [`whole_secret`] takes them
/// over. Which ones is left to chance.
pub fn generate_secret() -> (secret: [u8; 20])
    ensures
        secret@.len() == 20,
{
    let bytes = crypto::random_bytes(20);
    whole_secret(bytes.as_slice())
}

/// 20 bytes as a secret.
pub fn whole_secret(bytes: &[u8]) -> (secret: [u8; 20])
    requires
        bytes@.len() == 20,
    ensures
        secret@ == bytes@,
{
    let mut secret = [0u8; 20];
    let mut i: usize = 0;
    while i < 20
        invariant
            i <= 20,
            bytes@.len() == 20,
            forall|j: int| 0 <= j < i ==> secret@[j] == bytes@[j],
        decreases 20 - i,
    {
        secret[i] = bytes[i];
        i += 1;
    }
    assert(secret@ =~= bytes@);
    secret
}

/// A number as eight bytes, the most significant one first.
pub open spec fn big_endian(n: u64) -> Seq<u8> {
    seq![
        (n as int / 0x100_0000_0000_0000 % 256) as u8,
        (n as int / 0x1_0000_0000_0000 % 256) as u8,
        (n as int / 0x100_0000_0000 % 256) as u8,
        (n as int / 0x1_0000_0000 % 256) as u8,
        (n as int / 0x100_0000 % 256) as u8,
        (n as int / 0x1_0000 % 256) as u8,
        (n as int / 0x100 % 256) as u8,
        (n as int % 256) as u8,
    ]
}

/// Executable form of [`big_endian`].
fn to_big_endian(n: u64) -> (v: Vec<u8>)
    ensures
        v@ == big_endian(n),
{
    let mut v: Vec<u8> = Vec::new();
    v.push((n / 0x100_0000_0000_0000 % 256) as u8);
    v.push((n / 0x1_0000_0000_0000 % 256) as u8);
    v.push((n / 0x100_0000_0000 % 256) as u8);
    v.push((n / 0x1_0000_0000 % 256) as u8);
    v.push((n / 0x100_0000 % 256) as u8);
    v.push((n / 0x1_0000 % 256) as u8);
    v.push((n / 0x100 % 256) as u8);
    v.push((n % 256) as u8);
    assert(v@ =~= big_endian(n));
    v
}

/// The code in a tag: the low half of the last byte says where four bytes of it are
/// taken, whose first bit is dropped and of which six decimal digits are kept.
pub open spec fn code_in(tag: Seq<u8>) -> int {
    let at = tag[19] as int % 16;
    (tag[at] as int % 128 * 0x100_0000 + tag[at + 1] as int * 0x1_0000 + tag[at + 2] as int * 0x100
        + tag[at + 3] as int) % 1_000_000
}

/// Executable form of [`code_in`].
pub fn truncated_code(tag: &[u8]) -> (code: u32)
    requires
        tag@.len() == 20,
    ensures
        code == code_in(tag@),
{
    let at: usize = (tag[19] % 16) as usize;
    let high: u32 = (tag[at] % 128) as u32 * 0x100_0000;
    let word: u32 = high + tag[at + 1] as u32 * 0x1_0000 + tag[at + 2] as u32 * 0x100
        + tag[at + 3] as u32;
    word % 1_000_000
}

/// The code of a secret for a time step.
pub open spec fn code_of(secret: Seq<u8>, time_step: u64) -> int {
    code_in(crypto::hmac_sha1_of(secret, big_endian(time_step)))
}

/// The code of a secret for a time step.
pub fn generate_code(secret: &[u8], time_step: u64) -> (code: u32)
    ensures
        code == code_of(secret@, time_step),
        code < 1_000_000,
{
    let message = to_big_endian(time_step);
    let tag = crypto::hmac_sha1(secret, message.as_slice());
    truncated_code(tag.as_slice())
}

/// How long a code is shown, in seconds.
pub const STEP_SECS: u64 = 30;

/// The step before a time, the step of the time, or the step after it.
pub open spec fn near(step: u64, now: u64) -> bool {
    now / STEP_SECS - 1 <= step <= now / STEP_SECS + 1
}

/// The text is the code of a step that is near.
pub open spec fn accepts(secret: Seq<u8>, code: Seq<char>, now: u64) -> bool {
    match digits::parse(code, u32::MAX as nat) {
        Some(n) => exists|step: u64| near(step, now) && #[trigger] code_of(secret, step) == n,
        None => false,
    }
}

/// Whether the text is a code of the secret at `now`, in seconds since 1970.
pub fn verify_at(secret: &[u8], code: &str, now: u64) -> (r: bool)
    ensures
        r == accepts(secret@, code@, now),
{
    let cs = text::chars_of(code);
    let n: u64 = match digits::parse_max(cs.as_slice(), u32::MAX as u64) {
        Some(n) => n,
        None => return false,
    };
    let current: u64 = now / STEP_SECS;
    let first: u64 = if current > 0 {
        current - 1
    } else {
        0
    };
    let last: u64 = current + 1;
    let mut step: u64 = first;
    while step <= last
        invariant
            current == now / STEP_SECS,
            first == if current > 0 {
                current - 1
            } else {
                0
            },
            last == current + 1,
            first <= step <= last + 1,
            last < u64::MAX,
            digits::parse(code@, u32::MAX as nat) == Some(n as nat),
            forall|s: u64| first <= s < step ==> #[trigger] code_of(secret@, s) != n,
        decreases last + 1 - step,
    {
        let got = generate_code(secret, step);
        if got as u64 == n {
            assert(near(step, now));
            return true;
        }
        step += 1;
    }
    false
}

/// Whether the text is a code of the secret now.
pub fn verify(secret: &[u8], code: &str) -> (r: bool)
    ensures
        exists|now: u64| r == #[trigger] accepts(secret@, code@, now),
{
    let t = clock::now();
    let now: u64 = if t.secs < 0 {
        0
    } else {
        t.secs as u64
    };
    verify_at(secret, code, now)
}

/// The code of the current step, and those of its neighbours, are accepted, with the
/// zeros that make them six digits long or without.
pub proof fn law_current_code_is_accepted(secret: Seq<u8>, now: u64, step: u64)
    requires
        near(step, now),
    ensures
        accepts(secret, digits::padded(code_of(secret, step) as nat, 6), now),
        accepts(secret, digits::dec(code_of(secret, step) as nat), now),
{
    digits::lemma_padded_parses(code_of(secret, step) as nat, 6, u32::MAX as nat);
    digits::lemma_dec_parses(code_of(secret, step) as nat, u32::MAX as nat);
}

/// What an authenticator reads off its camera.
pub open spec fn spec_otpauth_uri(secret_b32: Seq<char>, email: Seq<char>) -> Seq<char> {
    "otpauth://totp/WPressForge:"@ + crypto::url_encoded(email) + "?secret="@ + secret_b32
        + "&issuer=WPressForge"@
}

/// What an authenticator reads off its camera.
pub fn otpauth_uri(secret_b32: &str, email: &str) -> (s: String)
    ensures
        s@ == spec_otpauth_uri(secret_b32@, email@),
{
    let encoded_email = crypto::url_encode(email);
    text::cat5(
        "otpauth://totp/WPressForge:",
        encoded_email.as_str(),
        "?secret=",
        secret_b32,
        "&issuer=WPressForge",
    )
}

} // verus!
