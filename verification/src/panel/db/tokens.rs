//! API token management. Tokens are bearer credentials that allow external
//! tools (CI, WP-CLI plugins) to authenticate against the panel API.
//!
//! The plaintext is shown once on creation; only the SHA-256 hash is stored.

use vstd::prelude::*;
use vstd::utf8;
use crate::clock::UtcTime;
use crate::crypto;
use crate::panel::auth;
use crate::panel::db::times;
use crate::text;

verus! {

#[derive(Debug)]
pub struct ApiToken {
    pub id: i64,
    pub name: String,
    pub user_id: i64,
    pub created_at: UtcTime,
    pub last_used_at: Option<UtcTime>,
}

/// The columns of a token as they are stored.
#[derive(Debug)]
pub struct TokenColumns {
    pub id: i64,
    pub name: String,
    pub user_id: i64,
    pub created_at: String,
    pub last_used_at: Option<String>,
}

/// The hexadecimal digit `d`, 0 to 15, as a small letter.
pub open spec fn small_hex(d: int) -> char {
    if d < 10 {
        (48 + d) as char
    } else {
        (87 + d) as char
    }
}

/// Bytes as hexadecimal digits.
pub open spec fn hex(bytes: Seq<u8>) -> Seq<char> {
    Seq::new(
        2 * bytes.len(),
        |i: int|
            if i % 2 == 0 {
                small_hex(bytes[i / 2] as int / 16)
            } else {
                small_hex(bytes[i / 2] as int % 16)
            },
    )
}

/// The hash under which a token is stored.
pub open spec fn token_hash(plaintext: Seq<char>) -> Seq<char> {
    hex(crypto::sha256_of(utf8::encode_utf8(plaintext)))
}

/// Executable form of [`small_hex`].
fn small_hex_char(d: u8) -> (c: char)
    requires
        d < 16,
    ensures
        c == small_hex(d as int),
{
    if d < 10 {
        (48 + d) as char
    } else {
        (87 + d) as char
    }
}

/// Executable form of [`hex`].
pub fn write_hex(bytes: &[u8]) -> (s: String)
    ensures
        s@ == hex(bytes@),
{
    let mut s = String::new();
    let mut i: usize = 0;
    while i < bytes.len()
        invariant
            i <= bytes@.len(),
            s@ =~= hex(bytes@).take(2 * i as int),
        decreases bytes@.len() - i,
    {
        s.push(small_hex_char(bytes[i] / 16));
        s.push(small_hex_char(bytes[i] % 16));
        i += 1;
    }
    assert(s@ =~= hex(bytes@));
    s
}

/// Hashes a plaintext token for storage.
pub fn hash_token(plaintext: &str) -> (s: String)
    ensures
        s@ == token_hash(plaintext@),
{
    let digest = crypto::sha256(plaintext.as_bytes());
    write_hex(digest.as_slice())
}

/// A new token: its plaintext, and the hash that is stored of it.
pub fn new_token() -> (r: (String, String))
    ensures
        r.0@.len() == 47,
        text::starts_with(r.0@, "wpp_"@),
        auth::is_token(r.0@.skip(4)),
        r.1@ == token_hash(r.0@),
{
    let random = auth::random_token();
    let plaintext = text::cat2("wpp_", random.as_str());
    proof {
        reveal_strlit("wpp_");
        assert(plaintext@.subrange(0, 4) =~= "wpp_"@);
        assert(plaintext@.skip(4) =~= random@);
    }
    let hash = hash_token(plaintext.as_str());
    (plaintext, hash)
}

/// The token that columns stand for; `now` stands for a time that cannot be read.
pub open spec fn api_token_of(c: TokenColumns, now: UtcTime) -> ApiToken {
    ApiToken {
        id: c.id,
        name: c.name,
        user_id: c.user_id,
        created_at: times::stored_or(c.created_at@, now),
        last_used_at: times::stored_opt(c.last_used_at, now),
    }
}

/// Executable form of [`api_token_of`].
pub fn map(c: TokenColumns, now: &UtcTime) -> (t: ApiToken)
    ensures
        t == api_token_of(c, *now),
{
    let created_at = times::parse_ts_or(c.created_at.as_str(), now);
    let last_used_at = times::parse_ts_opt_or(&c.last_used_at, now);
    ApiToken { id: c.id, name: c.name, user_id: c.user_id, created_at, last_used_at }
}

} // verus!
