//! Stateless double-submit CSRF protection with an HMAC-bound token.
//!
//! `token(session)` = base64url(HMAC-SHA256(secret, session_token || ":" || day_bucket))
//!
//! The current and previous day bucket are accepted, so a form open across
//! midnight still submits.

use vstd::prelude::*;
use vstd::utf8;
use crate::clock;
use crate::clock::UtcTime;
use crate::crypto;
use crate::digits;
use crate::text;

verus! {

/// 32 random bytes generated at boot.
pub struct CsrfKey(pub [u8; 32]);

/// What a token vouches for.
pub open spec fn payload(session_token: Seq<char>, bucket: int) -> Seq<char> {
    session_token + ":"@ + digits::dec_int(bucket)
}

/// The tag of a session on a day.
pub open spec fn tag_of(key: Seq<u8>, session_token: Seq<char>, bucket: int) -> Seq<u8> {
    crypto::hmac_sha256_of(key, utf8::encode_utf8(payload(session_token, bucket)))
}

/// The number of days since 1970, rounded toward zero.
pub open spec fn spec_day_bucket(t: UtcTime) -> int {
    clock::toward_zero(t.secs as int, clock::SECS_PER_DAY as int)
}

/// The tag, once the text around it was read, is that of the session on the day or on
/// the day before.
pub open spec fn vouches(
    key: Seq<u8>,
    session_token: Seq<char>,
    read: Option<Seq<u8>>,
    day: int,
) -> bool {
    match read {
        Some(tag) => tag.len() == 32 && (tag == tag_of(key, session_token, day) || tag == tag_of(
            key,
            session_token,
            day - 1,
        )),
        None => false,
    }
}

/// The text is a token of the session on a day or on the day before.
pub open spec fn verifies(key: Seq<u8>, session_token: Seq<char>, presented: Seq<char>, day: int) -> bool {
    presented.len() > 0 && vouches(key, session_token, crypto::url_base64_read(presented), day)
}

/// Returns the number of days since Unix epoch, the "day bucket".
pub fn day_bucket(t: &UtcTime) -> (d: i64)
    ensures
        d == spec_day_bucket(*t),
        -106_751_991_167_301 < d < 106_751_991_167_301,
{
    if t.secs >= 0 {
        t.secs / 86_400
    } else {
        -((-(t.secs as i128) / 86_400) as i64)
    }
}

/// Executable form of [`payload`].
fn write_payload(session_token: &str, bucket: i64) -> (s: String)
    ensures
        s@ == payload(session_token@, bucket as int),
{
    let day = digits::dec_i64(bucket);
    text::cat3(session_token, ":", day.as_str())
}

impl CsrfKey {
    /// Generates a CSRF token for the given session token, scoped to the current UTC
    /// day bucket.
    pub fn token(&self, session_token: &str) -> (s: String)
        ensures
            exists|day: i64|
                s@ == crypto::url_base64_of(#[trigger] tag_of(self.0@, session_token@, day as int)),
    {
        let day = day_bucket(&clock::now());
        self.make_token(session_token, day)
    }

    /// The token of a session on a day.
    pub fn make_token(&self, session_token: &str, bucket: i64) -> (s: String)
        ensures
            s@ == crypto::url_base64_of(tag_of(self.0@, session_token@, bucket as int)),
            s@.len() == 43,
            crypto::url_base64_read(s@) == Some(
                tag_of(self.0@, session_token@, bucket as int),
            ),
            tag_of(self.0@, session_token@, bucket as int).len() == 32,
            // The token stands for a tag that verifies on its day and on the next one.
            verifies(self.0@, session_token@, s@, bucket as int),
            verifies(self.0@, session_token@, s@, bucket + 1),
    {
        let message = write_payload(session_token, bucket);
        let tag = crypto::hmac_sha256(self.0.as_slice(), message.as_str().as_bytes());
        crypto::url_base64(tag.as_slice())
    }

    /// Whether a tag is that of the session on the day or on the day before. Compares
    /// in constant time.
    pub fn vouches_on(&self, session_token: &str, read: &Option<Vec<u8>>, day: i64) -> (r: bool)
        requires
            day > i64::MIN,
        ensures
            r == vouches(
                self.0@,
                session_token@,
                match *read {
                    Some(b) => Some(b@),
                    None => None,
                },
                day as int,
            ),
    {
        match read {
            None => false,
            Some(tag) => {
                if tag.len() != 32 {
                    return false;
                }
                let today = write_payload(session_token, day);
                let yesterday = write_payload(session_token, day - 1);
                crypto::hmac_sha256_is(
                    self.0.as_slice(),
                    today.as_str().as_bytes(),
                    tag.as_slice(),
                ) || crypto::hmac_sha256_is(
                    self.0.as_slice(),
                    yesterday.as_str().as_bytes(),
                    tag.as_slice(),
                )
            },
        }
    }

    /// Whether a text is a token of the session on the day or on the day before.
    pub fn verify_on(&self, session_token: &str, presented: &str, day: i64) -> (r: bool)
        requires
            day > i64::MIN,
        ensures
            r == verifies(self.0@, session_token@, presented@, day as int),
    {
        if presented.is_empty() {
            return false;
        }
        let read = crypto::url_base64_bytes(presented);
        self.vouches_on(session_token, &read, day)
    }

    /// Verifies a presented token against the current and previous day buckets. Uses
    /// constant-time comparison.
    pub fn verify(&self, session_token: &str, presented: &str) -> (r: bool)
        ensures
            exists|day: i64|
                r == #[trigger] verifies(self.0@, session_token@, presented@, day as int),
    {
        let day = day_bucket(&clock::now());
        self.verify_on(session_token, presented, day)
    }
}

/// A token verifies on the day it was issued for and on the next one; on another day
/// only where the tags of two days are the same.
pub proof fn law_token_lives_for_two_days(
    key: Seq<u8>,
    session_token: Seq<char>,
    issued: int,
    day: int,
)
    requires
        tag_of(key, session_token, issued).len() == 32,
    ensures
        ({
            let tag = tag_of(key, session_token, issued);
            let token = crypto::url_base64_of(tag);
            &&& verifies(key, session_token, token, issued)
            &&& verifies(key, session_token, token, issued + 1)
            &&& verifies(key, session_token, token, day) <==> tag == tag_of(key, session_token, day)
                || tag == tag_of(key, session_token, day - 1)
        }),
{
    crypto::law_base64_is_read_back(tag_of(key, session_token, issued));
}

/// Checks a CSRF token from the `x-csrf-token` header or a form field.
/// Returns `true` if the token is valid for the given session.
pub fn check_token(
    csrf_key: &CsrfKey,
    session_token: Option<&str>,
    presented: Option<&str>,
) -> (r: bool)
    ensures
        match (session_token, presented) {
            (Some(session), Some(token)) => exists|day: i64|
                r == #[trigger] verifies(csrf_key.0@, session@, token@, day as int),
            _ => !r,
        },
{
    match (session_token, presented) {
        (Some(session), Some(token)) => csrf_key.verify(session, token),
        _ => false,
    }
}

} // verus!
