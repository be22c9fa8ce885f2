//! Digests, ciphers, encodings and randomness, as the rest of the crate uses them.

use aes_gcm::aead::{Aead, KeyInit};
use aes_gcm::{Aes256Gcm, Nonce};
use argon2::password_hash::{PasswordHash, PasswordHasher, PasswordVerifier, SaltString};
use argon2::Argon2;
use base64::engine::general_purpose::{STANDARD, URL_SAFE_NO_PAD};
use base64::Engine;
use hmac::{Hmac, Mac};
use sha1::Sha1;
use sha2::{Digest, Sha256};
use vstd::prelude::*;
use vstd::utf8;

verus! {

// ---------------------------------------------------------------------------
// Digests
// ---------------------------------------------------------------------------

/// What `sha2::Sha256::digest` makes of some bytes.
pub uninterp spec fn sha256_of(data: Seq<u8>) -> Seq<u8>;

/// Calls `sha2::Sha256::digest`: the digest depends on the bytes alone and has 32
/// bytes.
#[verifier::external_body]
pub(crate) fn sha256(data: &[u8]) -> (r: Vec<u8>)
    ensures
        r@ == sha256_of(data@),
        r@.len() == 32,
{
    Sha256::digest(data).to_vec()
}

/// The tag of `hmac::Hmac<sha1::Sha1>` over a message under a key.
pub uninterp spec fn hmac_sha1_of(key: Seq<u8>, message: Seq<u8>) -> Seq<u8>;

/// Calls `hmac::Hmac<sha1::Sha1>`, which takes a key of any length: the tag depends
/// on the key and the message alone and has 20 bytes.
#[verifier::external_body]
pub(crate) fn hmac_sha1(key: &[u8], message: &[u8]) -> (r: Vec<u8>)
    ensures
        r@ == hmac_sha1_of(key@, message@),
        r@.len() == 20,
{
    let mut mac = <Hmac<Sha1> as Mac>::new_from_slice(key).expect("any key length");
    mac.update(message);
    mac.finalize().into_bytes().to_vec()
}

/// The tag of `hmac::Hmac<sha2::Sha256>` over a message under a key.
pub uninterp spec fn hmac_sha256_of(key: Seq<u8>, message: Seq<u8>) -> Seq<u8>;

/// Calls `hmac::Hmac<sha2::Sha256>`, which takes a key of any length: the tag depends
/// on the key and the message alone and has 32 bytes.
#[verifier::external_body]
pub(crate) fn hmac_sha256(key: &[u8], message: &[u8]) -> (r: Vec<u8>)
    ensures
        r@ == hmac_sha256_of(key@, message@),
        r@.len() == 32,
{
    let mut mac = <Hmac<Sha256> as Mac>::new_from_slice(key).expect("any key length");
    mac.update(message);
    mac.finalize().into_bytes().to_vec()
}

/// Calls `verify_slice` of `hmac::Hmac<sha2::Sha256>`, which compares in constant
/// time: whether `tag` is the whole tag of the message under the key.
#[verifier::external_body]
pub(crate) fn hmac_sha256_is(key: &[u8], message: &[u8], tag: &[u8]) -> (r: bool)
    ensures
        r == (tag@ == hmac_sha256_of(key@, message@)),
{
    let mut mac = <Hmac<Sha256> as Mac>::new_from_slice(key).expect("any key length");
    mac.update(message);
    mac.verify_slice(tag).is_ok()
}

// ---------------------------------------------------------------------------
// Encodings
// ---------------------------------------------------------------------------

/// The sign of base64 for six bits, in the URL-safe alphabet or in the standard one.
pub open spec fn sign64(n: int, url: bool) -> char {
    if n < 26 {
        (65 + n) as char
    } else if n < 52 {
        (71 + n) as char
    } else if n < 62 {
        (n - 4) as char
    } else if n == 62 {
        if url {
            '-'
        } else {
            '+'
        }
    } else {
        if url {
            '_'
        } else {
            '/'
        }
    }
}

/// The byte at `i`, or zero past the end.
pub open spec fn byte_at(data: Seq<u8>, i: int) -> int {
    if i < data.len() {
        data[i] as int
    } else {
        0
    }
}

/// The four signs of base64 for the first three bytes.
pub open spec fn quad(data: Seq<u8>, url: bool) -> Seq<char> {
    let (a, b, c) = (byte_at(data, 0), byte_at(data, 1), byte_at(data, 2));
    seq![
        sign64(a / 4, url),
        sign64(a % 4 * 16 + b / 16, url),
        sign64(b % 16 * 4 + c / 64, url),
        sign64(c % 64, url),
    ]
}

/// Some bytes in base64: four signs for three bytes, and for one or two bytes at the end
/// as many signs as hold a bit of them. With the standard alphabet `=` takes the place of
/// the signs left out.
pub open spec fn base64_in(data: Seq<u8>, url: bool) -> Seq<char>
    decreases data.len(),
{
    let n = data.len() as int;
    if n == 0 {
        Seq::empty()
    } else if n >= 3 {
        quad(data, url) + base64_in(data.skip(3), url)
    } else if url {
        quad(data, url).take(n + 1)
    } else {
        quad(data, url).take(n + 1) + seq!['=', '='].take(3 - n)
    }
}

/// No two groups of six bits have one sign, and none has `=`.
proof fn lemma_signs_differ(url: bool)
    ensures
        forall|m: int, n: int|
            #![trigger sign64(m, url), sign64(n, url)]
            0 <= m < 64 && 0 <= n < 64 && sign64(m, url) == sign64(n, url) ==> m == n,
        forall|n: int| 0 <= n < 64 ==> #[trigger] sign64(n, url) != '=',
{
}

/// The signs of one to three bytes tell the bytes.
proof fn lemma_quads_differ(x: Seq<u8>, y: Seq<u8>, url: bool)
    requires
        quad(x, url) == quad(y, url),
    ensures
        byte_at(x, 0) == byte_at(y, 0),
        byte_at(x, 1) == byte_at(y, 1),
        byte_at(x, 2) == byte_at(y, 2),
{
    lemma_signs_differ(url);
    let (a, b, c) = (byte_at(x, 0), byte_at(x, 1), byte_at(x, 2));
    let (d, e, f) = (byte_at(y, 0), byte_at(y, 1), byte_at(y, 2));
    let s = quad(x, url);
    let t = quad(y, url);
    assert(s[0] == t[0] && s[1] == t[1] && s[2] == t[2] && s[3] == t[3]);
    assert(a / 4 == d / 4);
    assert(a % 4 * 16 + b / 16 == d % 4 * 16 + e / 16);
    assert(b % 16 * 4 + c / 64 == e % 16 * 4 + f / 64);
    assert(c % 64 == f % 64);
}

/// How many signs there are.
proof fn lemma_base64_len(data: Seq<u8>, url: bool)
    ensures
        base64_in(data, url).len() == if url {
            (data.len() * 4 + 2) / 3
        } else {
            (data.len() + 2) / 3 * 4
        },
    decreases data.len(),
{
    if data.len() >= 3 {
        lemma_base64_len(data.skip(3), url);
    }
}

/// A sign of the URL-safe alphabet.
pub open spec fn is_url_sign(c: char) -> bool {
    'A' <= c <= 'Z' || 'a' <= c <= 'z' || '0' <= c <= '9' || c == '-' || c == '_'
}

/// Nothing else stands in a text in the URL-safe alphabet.
pub proof fn lemma_url_signs(data: Seq<u8>)
    ensures
        forall|i: int|
            0 <= i < url_base64_of(data).len() ==> is_url_sign(#[trigger] url_base64_of(data)[i]),
    decreases data.len(),
{
    let s = base64_in(data, true);
    if data.len() >= 3 {
        lemma_url_signs(data.skip(3));
        let rest = url_base64_of(data.skip(3));
        assert forall|i: int| 0 <= i < s.len() implies is_url_sign(#[trigger] s[i]) by {
            if i >= 4 {
                assert(s[i] == rest[i - 4]);
            }
        }
    }
}

/// Different bytes have different texts in base64.
pub proof fn law_base64_tells_bytes_apart(x: Seq<u8>, y: Seq<u8>, url: bool)
    requires
        base64_in(x, url) == base64_in(y, url),
    ensures
        x == y,
    decreases x.len(),
{
    lemma_base64_len(x, url);
    lemma_base64_len(y, url);
    lemma_signs_differ(url);
    let s = base64_in(x, url);
    let t = base64_in(y, url);
    let (p, q) = (quad(x, url), quad(y, url));
    if x.len() >= 3 && y.len() >= 3 {
        assert(s.take(4) =~= p && t.take(4) =~= q);
        assert(s.skip(4) =~= base64_in(x.skip(3), url));
        assert(t.skip(4) =~= base64_in(y.skip(3), url));
        law_base64_tells_bytes_apart(x.skip(3), y.skip(3), url);
        lemma_quads_differ(x, y, url);
        assert forall|i: int| 0 <= i < x.len() implies x[i] == y[i] by {
            if i >= 3 {
                assert(x.skip(3)[i - 3] == y.skip(3)[i - 3]);
            }
        }
    } else if x.len() == y.len() && x.len() > 0 {
        let n = x.len() as int;
        assert forall|i: int| 0 <= i < 4 implies p[i] == q[i] by {
            if i <= n {
                assert(s[i] == p[i] && t[i] == q[i]);
            }
        }
        assert(p =~= q);
        lemma_quads_differ(x, y, url);
    } else if x.len() > 0 && y.len() > 0 && !url {
        assert(s[2] == p[2] || s[2] == '=');
        assert(t[2] == q[2] || t[2] == '=');
        assert(s[3] == p[3] || s[3] == '=');
        assert(t[3] == q[3] || t[3] == '=');
    }
    assert(x =~= y);
}

/// Some bytes in the URL-safe alphabet of base64, without padding.
pub open spec fn url_base64_of(data: Seq<u8>) -> Seq<char> {
    base64_in(data, true)
}

/// The bytes that a text in the URL-safe alphabet of base64 without padding stands
/// for, if it is one.
pub open spec fn url_base64_read(text: Seq<char>) -> Option<Seq<u8>> {
    if exists|data: Seq<u8>| #[trigger] url_base64_of(data) == text {
        Some(choose|data: Seq<u8>| #[trigger] url_base64_of(data) == text)
    } else {
        None
    }
}

/// Calls `encode` of base64's `URL_SAFE_NO_PAD` engine: the text is the bytes in the
/// URL-safe alphabet, without padding.
#[verifier::external_body]
fn encode_url(data: &[u8]) -> (s: String)
    ensures
        s@ == url_base64_of(data@),
{
    URL_SAFE_NO_PAD.encode(data)
}

/// Writes bytes in the URL-safe alphabet of base64; the text reads back as the bytes.
pub fn url_base64(data: &[u8]) -> (s: String)
    ensures
        s@ == url_base64_of(data@),
        s@.len() == (data@.len() * 4 + 2) / 3,
        url_base64_read(s@) == Some(data@),
{
    proof {
        lemma_base64_len(data@, true);
        law_base64_is_read_back(data@);
    }
    encode_url(data)
}

/// Calls `decode` of base64's `URL_SAFE_NO_PAD` engine: it reads exactly the texts that
/// bytes have in the URL-safe alphabet without padding, as those bytes.
#[verifier::external_body]
pub(crate) fn url_base64_bytes(text: &str) -> (r: Option<Vec<u8>>)
    ensures
        match r {
            Some(b) => url_base64_read(text@) == Some(b@),
            None => url_base64_read(text@) is None,
        },
{
    URL_SAFE_NO_PAD.decode(text).ok()
}

/// Some bytes in the standard alphabet of base64, with padding.
pub open spec fn base64_of(data: Seq<u8>) -> Seq<char> {
    base64_in(data, false)
}

/// What base64's `STANDARD` engine says of a text that it does not read.
pub uninterp spec fn base64_fault(text: Seq<char>) -> Seq<char>;

/// The bytes that a text in the standard alphabet of base64 with padding stands for,
/// or what is wrong with it.
pub open spec fn base64_read(text: Seq<char>) -> Result<Seq<u8>, Seq<char>> {
    if exists|data: Seq<u8>| #[trigger] base64_of(data) == text {
        Ok(choose|data: Seq<u8>| #[trigger] base64_of(data) == text)
    } else {
        Err(base64_fault(text))
    }
}

/// The text stands for the bytes.
pub open spec fn reads_as(text: Seq<char>, data: Seq<u8>) -> bool {
    base64_read(text) == Ok::<Seq<u8>, Seq<char>>(data)
}

/// Bytes in base64 are read back as they were.
pub proof fn law_base64_is_read_back(data: Seq<u8>)
    ensures
        url_base64_read(url_base64_of(data)) == Some(data),
        reads_as(base64_of(data), data),
{
    let url = choose|d: Seq<u8>| #[trigger] url_base64_of(d) == url_base64_of(data);
    law_base64_tells_bytes_apart(url, data, true);
    let plain = choose|d: Seq<u8>| #[trigger] base64_of(d) == base64_of(data);
    law_base64_tells_bytes_apart(plain, data, false);
}

/// Calls `encode` of base64's `STANDARD` engine: the text is the bytes in the standard
/// alphabet, with padding.
#[verifier::external_body]
fn encode_standard(data: &[u8]) -> (s: String)
    ensures
        s@ == base64_of(data@),
{
    STANDARD.encode(data)
}

/// Writes bytes in the standard alphabet of base64; the text reads back as the bytes.
pub fn base64(data: &[u8]) -> (s: String)
    ensures
        s@ == base64_of(data@),
        reads_as(s@, data@),
{
    proof {
        law_base64_is_read_back(data@);
    }
    encode_standard(data)
}

/// Calls `decode` of base64's `STANDARD` engine: it reads exactly the texts that bytes
/// have in the standard alphabet with padding, as those bytes. What is said otherwise
/// depends on the text alone and is named [`base64_fault`].
#[verifier::external_body]
pub(crate) fn base64_bytes(text: &str) -> (r: Result<Vec<u8>, String>)
    ensures
        match r {
            Ok(b) => base64_read(text@) == Ok::<Seq<u8>, Seq<char>>(b@),
            Err(e) => base64_read(text@) == Err::<Seq<u8>, Seq<char>>(base64_fault(text@)) && e@
                == base64_fault(text@),
        },
{
    STANDARD.decode(text).map_err(|e| e.to_string())
}

/// What is said of bytes that are no UTF-8.
pub uninterp spec fn utf8_fault(bytes: Seq<u8>) -> Seq<char>;

/// Calls `String::from_utf8`: succeeds on the bytes that are UTF-8, with the text
/// that they encode; what is said otherwise depends on the bytes alone.
#[verifier::external_body]
pub(crate) fn text_of_utf8(bytes: Vec<u8>) -> (r: Result<String, String>)
    ensures
        match r {
            Ok(s) => utf8::valid_utf8(bytes@) && s@ == utf8::decode_utf8(bytes@),
            Err(e) => !utf8::valid_utf8(bytes@) && e@ == utf8_fault(bytes@),
        },
{
    String::from_utf8(bytes).map_err(|e| e.to_string())
}

/// A byte that stands for itself in a URL.
pub open spec fn plain_in_url(b: u8) -> bool {
    ||| '0' <= b as char <= '9'
    ||| 'A' <= b as char <= 'Z'
    ||| 'a' <= b as char <= 'z'
    ||| b as char == '-'
    ||| b as char == '_'
    ||| b as char == '.'
    ||| b as char == '~'
}

/// A hexadecimal digit, 0 to 15, as a capital letter where it is a letter.
pub open spec fn capital_hex(d: int) -> char {
    if d < 10 {
        (48 + d) as char
    } else {
        (55 + d) as char
    }
}

/// Some bytes as they stand in a URL: those that do not stand for themselves as a
/// percent sign and two hexadecimal digits.
pub open spec fn percent_encoded(bytes: Seq<u8>) -> Seq<char>
    decreases bytes.len(),
{
    if bytes.len() == 0 {
        Seq::empty()
    } else {
        let b = bytes.last();
        percent_encoded(bytes.drop_last()) + if plain_in_url(b) {
            seq![b as char]
        } else {
            seq!['%', capital_hex(b as int / 16), capital_hex(b as int % 16)]
        }
    }
}

/// A text as it stands in a URL.
pub open spec fn url_encoded(text: Seq<char>) -> Seq<char> {
    percent_encoded(utf8::encode_utf8(text))
}

/// Calls `urlencoding::encode`: the text's bytes in UTF-8, percent-encoded but for
/// letters, digits and four punctuation marks.
#[verifier::external_body]
pub(crate) fn url_encode(text: &str) -> (s: String)
    ensures
        s@ == url_encoded(text@),
{
    urlencoding::encode(text).into_owned()
}

// ---------------------------------------------------------------------------
// Ciphers
// ---------------------------------------------------------------------------

/// The longest plain text that AES-256-GCM takes, in bytes.
pub const MAX_PLAIN: u64 = 0x10_0000_0000;

/// What AES-256-GCM makes of a plain text under a key and a nonce, or what is wrong.
pub uninterp spec fn aes_sealed(key: Seq<u8>, nonce: Seq<u8>, plain: Seq<u8>) -> Result<
    Seq<u8>,
    Seq<char>,
>;

/// What AES-256-GCM reads out of a cipher text under a key and a nonce, or what is
/// wrong.
pub uninterp spec fn aes_opened(key: Seq<u8>, nonce: Seq<u8>, cipher: Seq<u8>) -> Result<
    Seq<u8>,
    Seq<char>,
>;

/// Calls `encrypt` of `aes_gcm::Aes256Gcm`: the cipher text depends on the key, the
/// nonce and the plain text alone, and decrypts to the plain text under the same key
/// and nonce; it is the plain text's length and a tag of 16 bytes long. A plain text is
/// taken if and only if it has at most [`MAX_PLAIN`] bytes.
#[verifier::external_body]
pub(crate) fn aes_seal(key: &[u8; 32], nonce: &[u8], plain: &[u8]) -> (r: Result<Vec<u8>, String>)
    requires
        nonce@.len() == 12,
    ensures
        match r {
            Ok(c) => aes_sealed(key@, nonce@, plain@) == Ok::<Seq<u8>, Seq<char>>(c@)
                && aes_opened(key@, nonce@, c@) == Ok::<Seq<u8>, Seq<char>>(plain@) && c@.len()
                == plain@.len() + 16,
            Err(e) => aes_sealed(key@, nonce@, plain@) == Err::<Seq<u8>, Seq<char>>(e@),
        },
        r is Ok <==> plain@.len() <= MAX_PLAIN,
{
    let cipher = Aes256Gcm::new_from_slice(key).map_err(|e| e.to_string())?;
    cipher.encrypt(Nonce::from_slice(nonce), plain).map_err(|e| e.to_string())
}

/// Calls `decrypt` of `aes_gcm::Aes256Gcm`: whether it opens, to which plain text, and
/// what is said otherwise, depends on the key, the nonce and the cipher text alone. The
/// tag is compared, so a cipher text that opens is the one that the plain text is
/// encrypted to, as far as plain texts of that length are taken.
#[verifier::external_body]
pub(crate) fn aes_open(key: &[u8; 32], nonce: &[u8], cipher_text: &[u8]) -> (r: Result<
    Vec<u8>,
    String,
>)
    requires
        nonce@.len() == 12,
    ensures
        match r {
            Ok(p) => aes_opened(key@, nonce@, cipher_text@) == Ok::<Seq<u8>, Seq<char>>(p@)
                && cipher_text@.len() == p@.len() + 16 && (p@.len() <= MAX_PLAIN ==> aes_sealed(
                key@,
                nonce@,
                p@,
            ) == Ok::<Seq<u8>, Seq<char>>(cipher_text@)),
            Err(e) => aes_opened(key@, nonce@, cipher_text@) == Err::<Seq<u8>, Seq<char>>(e@),
        },
{
    let cipher = Aes256Gcm::new_from_slice(key).map_err(|e| e.to_string())?;
    cipher.decrypt(Nonce::from_slice(nonce), cipher_text).map_err(|e| e.to_string())
}

// ---------------------------------------------------------------------------
// Passwords
// ---------------------------------------------------------------------------

/// The longest password that Argon2 takes, in bytes.
pub const MAX_PASSWORD: u64 = 0xFFFF_FFFF;

/// Why a password could not be hashed: what was wrong with its salt, or with the rest.
#[derive(Debug)]
pub enum HashFault<T> {
    Salt(T),
    Hash(T),
}

/// [`HashFault`] with its text as a sequence of characters.
pub open spec fn fault_view(f: HashFault<String>) -> HashFault<Seq<char>> {
    match f {
        HashFault::Salt(e) => HashFault::Salt(e@),
        HashFault::Hash(e) => HashFault::Hash(e@),
    }
}

/// The Argon2 hash of a password with a salt, in its text form, or what is wrong.
pub uninterp spec fn argon2_of(password: Seq<char>, salt: Seq<u8>) -> Result<
    Seq<char>,
    HashFault<Seq<char>>,
>;

/// The text is an Argon2 hash of the password.
pub uninterp spec fn argon2_accepts(password: Seq<char>, hash: Seq<char>) -> bool;

/// Calls `hash_password` of `argon2::Argon2` with its default parameters: the hash
/// depends on the password and the salt alone, and is one that the password is
/// accepted for. A salt of less than three bytes is too short to be written out. With a
/// salt of 8 to 48 bytes, a password is taken if and only if it has at most
/// [`MAX_PASSWORD`] bytes.
#[verifier::external_body]
pub(crate) fn argon2_hash(password: &str, salt: &[u8]) -> (r: Result<String, HashFault<String>>)
    requires
        salt@.len() >= 3,
    ensures
        match r {
            Ok(h) => argon2_of(password@, salt@) == Ok::<Seq<char>, HashFault<Seq<char>>>(h@)
                && argon2_accepts(password@, h@),
            Err(f) => argon2_of(password@, salt@) == Err::<Seq<char>, HashFault<Seq<char>>>(
                fault_view(f),
            ),
        },
        8 <= salt@.len() <= 48 ==> (r is Ok <==> utf8::encode_utf8(password@).len()
            <= MAX_PASSWORD),
{
    let salt = SaltString::encode_b64(salt).map_err(|e| HashFault::Salt(e.to_string()))?;
    Argon2::default()
        .hash_password(password.as_bytes(), &salt)
        .map(|h| h.to_string())
        .map_err(|e| HashFault::Hash(e.to_string()))
}

/// Calls `verify_password` of `argon2::Argon2` on what `PasswordHash::new` reads: whether
/// the text is an Argon2 hash of the password depends on the two alone.
#[verifier::external_body]
pub(crate) fn argon2_verify(password: &str, hash: &str) -> (r: bool)
    ensures
        r == argon2_accepts(password@, hash@),
{
    match PasswordHash::new(hash) {
        Ok(parsed) => Argon2::default().verify_password(password.as_bytes(), &parsed).is_ok(),
        Err(_) => false,
    }
}

// ---------------------------------------------------------------------------
// Randomness
// ---------------------------------------------------------------------------

/// Calls `fill_bytes` of `rand::rng()`: that many bytes. Which ones is left to chance.
#[verifier::external_body]
pub(crate) fn random_bytes(n: usize) -> (r: Vec<u8>)
    ensures
        r@.len() == n,
{
    let mut bytes = vec![0u8; n];
    rand::RngCore::fill_bytes(&mut rand::rng(), &mut bytes);
    bytes
}

/// 32 random bytes: those of [`random_bytes`], as [`whole_key`] takes them over. Which
/// ones is left to chance.
pub fn random_key() -> (key: [u8; 32])
    ensures
        key@.len() == 32,
{
    let bytes = random_bytes(32);
    whole_key(bytes.as_slice())
}

/// 32 bytes as a key.
pub fn whole_key(bytes: &[u8]) -> (key: [u8; 32])
    requires
        bytes@.len() == 32,
    ensures
        key@ == bytes@,
{
    let mut key = [0u8; 32];
    let mut i: usize = 0;
    while i < 32
        invariant
            i <= 32,
            bytes@.len() == 32,
            forall|j: int| 0 <= j < i ==> key@[j] == bytes@[j],
        decreases 32 - i,
    {
        key[i] = bytes[i];
        i += 1;
    }
    assert(key@ =~= bytes@);
    key
}

/// Some bytes as a key, if there are 32 of them.
pub fn key_of(bytes: &[u8]) -> (r: Option<[u8; 32]>)
    ensures
        match r {
            Some(key) => key@ == bytes@,
            None => bytes@.len() != 32,
        },
{
    if bytes.len() != 32 {
        return None;
    }
    Some(whole_key(bytes))
}

} // verus!
