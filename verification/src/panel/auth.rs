//! Session authentication: Argon2 password hashing, opaque session cookies, and what
//! the guards of the routes decide.

use vstd::prelude::*;
use crate::clock;
use crate::clock::UtcTime;
use crate::crypto;
use crate::crypto::HashFault;
use crate::digits;
use crate::panel::csrf;
use crate::panel::csrf::CsrfKey;
use crate::text;

verus! {

pub const COOKIE_NAME: &'static str = "wp_panel_session";

pub const SESSION_TTL_DAYS: i64 = 14;

// ---------------------------------------------------------------------------
// Passwords and tokens
// ---------------------------------------------------------------------------

/// What is told of a hash, or of why there is none.
pub open spec fn told(made: Result<Seq<char>, HashFault<Seq<char>>>) -> Result<
    Seq<char>,
    Seq<char>,
> {
    match made {
        Ok(hash) => Ok(hash),
        Err(HashFault::Salt(e)) => Err("encoding salt: "@ + e),
        Err(HashFault::Hash(e)) => Err("hashing password: "@ + e),
    }
}

/// The hash of a password under a salt, or why there is none.
pub open spec fn hashed(password: Seq<char>, salt: Seq<u8>) -> Result<Seq<char>, Seq<char>> {
    told(crypto::argon2_of(password, salt))
}

/// What hashing a password under some salt of 16 bytes comes to.
pub open spec fn hashes_to(password: Seq<char>, r: Result<Seq<char>, Seq<char>>) -> bool {
    exists|salt: Seq<u8>| salt.len() == 16 && #[trigger] hashed(password, salt) == r
}

/// Executable form of [`told`].
pub fn tell(made: Result<String, HashFault<String>>) -> (r: Result<String, String>)
    ensures
        match r {
            Ok(hash) => made == Ok::<String, HashFault<String>>(hash),
            Err(reason) => made matches Err(f) && told(Err(crypto::fault_view(f))) == Err::<
                Seq<char>,
                Seq<char>,
            >(reason@),
        },
{
    match made {
        Ok(hash) => Ok(hash),
        Err(HashFault::Salt(e)) => Err(text::cat2("encoding salt: ", e.as_str())),
        Err(HashFault::Hash(e)) => Err(text::cat2("hashing password: ", e.as_str())),
    }
}

/// Hashes a password under a random salt of 16 bytes.
pub fn hash_password(password: &str) -> (r: Result<String, String>)
    ensures
        match r {
            Ok(hash) => crypto::argon2_accepts(password@, hash@) && hashes_to(
                password@,
                Ok(hash@),
            ),
            Err(reason) => hashes_to(password@, Err(reason@)),
        },
        r is Ok <==> text::byte_len(password@) <= crypto::MAX_PASSWORD,
{
    // 16 random bytes, base64 encoded, is the recommended Argon2 salt size.
    let salt = crypto::random_bytes(16);
    let made = crypto::argon2_hash(password, salt.as_slice());
    assert(salt@.len() == 16 && hashed(password@, salt@) == told(
        crypto::argon2_of(password@, salt@),
    ));
    tell(made)
}

pub fn verify_password(password: &str, hash: &str) -> (r: bool)
    ensures
        r == crypto::argon2_accepts(password@, hash@),
{
    crypto::argon2_verify(password, hash)
}

/// A text is a token: 32 bytes in the URL-safe alphabet of base64.
pub open spec fn is_token(s: Seq<char>) -> bool {
    exists|bytes: Seq<u8>| bytes.len() == 32 && s == #[trigger] crypto::url_base64_of(bytes)
}

/// 256 bits of entropy, URL-safe. Used for session cookies, API tokens and
/// generated passwords.
pub fn random_token() -> (s: String)
    ensures
        s@.len() == 43,
        is_token(s@),
{
    let bytes = crypto::random_bytes(32);
    crypto::url_base64(bytes.as_slice())
}

/// A password is the front of a token.
pub open spec fn is_drawn(password: Seq<char>) -> bool {
    password.len() == 20 && exists|token: Seq<char>| #[trigger]
        is_token(token) && password == token.take(20)
}

/// The front of a random token.
pub fn random_password() -> (s: String)
    ensures
        is_drawn(s@),
{
    let token = random_token();
    text::front(token.as_str(), 20)
}

/// What is checked where there is no account, so that an unknown account takes as long
/// as a known one.
pub const NO_ACCOUNT_HASH: &'static str =
    "$argon2id$v=19$m=19456,t=2,p=1$c2FsdHNhbHQ$0000000000000000000000000000000000000000000";

/// Whether a password signs in, given the hash of the account if there is one.
pub fn signs_in(password: &str, stored: &Option<String>) -> (r: bool)
    ensures
        r == (stored matches Some(hash) && crypto::argon2_accepts(password@, hash@)),
{
    match stored {
        None => {
            // Constant-ish work on unknown accounts to avoid a trivial oracle.
            let _ignored = verify_password(password, NO_ACCOUNT_HASH);
            false
        },
        Some(hash) => verify_password(password, hash.as_str()),
    }
}

// ---------------------------------------------------------------------------
// Cookies
// ---------------------------------------------------------------------------

/// The mark of a cookie that only goes out over TLS.
pub open spec fn secure_mark(secure: bool) -> Seq<char> {
    if secure {
        "; Secure"@
    } else {
        Seq::empty()
    }
}

/// The cookie that signs a browser in for as long as a session lives.
pub open spec fn signed_in(token: Seq<char>, secure: bool) -> Seq<char> {
    COOKIE_NAME@ + "="@ + token + "; Path=/; HttpOnly; SameSite=Lax; Max-Age="@ + digits::dec_int(
        SESSION_TTL_DAYS * 24 * 3600,
    ) + secure_mark(secure)
}

/// The cookie that signs a browser out.
pub open spec fn signed_out(secure: bool) -> Seq<char> {
    COOKIE_NAME@ + "=; Path=/; HttpOnly; SameSite=Lax; Max-Age=0"@ + secure_mark(secure)
}

/// Executable form of [`signed_in`].
pub fn session_cookie(token: &str, secure: bool) -> (s: String)
    ensures
        s@ == signed_in(token@, secure),
{
    let age = digits::dec_i64(SESSION_TTL_DAYS * 24 * 3600);
    let mut s = text::cat5(
        COOKIE_NAME,
        "=",
        token,
        "; Path=/; HttpOnly; SameSite=Lax; Max-Age=",
        age.as_str(),
    );
    let ghost before = s@;
    if secure {
        s.append("; Secure");
    } else {
        assert(before + Seq::<char>::empty() =~= before);
    }
    s
}

/// Executable form of [`signed_out`].
pub fn clear_cookie(secure: bool) -> (s: String)
    ensures
        s@ == signed_out(secure),
{
    let mut s = text::cat2(COOKIE_NAME, "=; Path=/; HttpOnly; SameSite=Lax; Max-Age=0");
    let ghost before = s@;
    if secure {
        s.append("; Secure");
    } else {
        assert(before + Seq::<char>::empty() =~= before);
    }
    s
}

/// The value of a cookie in one piece of a header: what follows its name and an equals
/// sign, without white space around either.
pub open spec fn value_in(piece: Seq<char>, name: Seq<char>) -> Option<Seq<char>> {
    match text::split_once(piece, '=') {
        Some((k, v)) => if text::trim(k, text::Class::White) == name {
            Some(text::trim(v, text::Class::White))
        } else {
            None
        },
        None => None,
    }
}

/// The value of a cookie in the first piece that has it.
pub open spec fn first_value(pieces: Seq<Seq<char>>, name: Seq<char>) -> Option<Seq<char>>
    decreases pieces.len(),
{
    if pieces.len() == 0 {
        None
    } else {
        match value_in(pieces[0], name) {
            Some(v) => Some(v),
            None => first_value(pieces.drop_first(), name),
        }
    }
}

/// The value of a cookie in a `Cookie` header.
pub open spec fn cookie_in(header: Seq<char>, name: Seq<char>) -> Option<Seq<char>> {
    first_value(text::split(header, ';'), name)
}

/// Executable form of [`cookie_in`].
pub fn cookie_value(header: &str, name: &str) -> (r: Option<String>)
    ensures
        text::text_opt(r) == cookie_in(header@, name@),
{
    let cs = text::chars_of(header);
    let pieces = text::pieces(cs.as_slice(), ';');
    let ghost all = text::rows(pieces@);
    let mut i: usize = 0;
    assert(all.skip(0) =~= all);
    while i < pieces.len()
        invariant
            i <= pieces@.len(),
            all == text::rows(pieces@),
            all == text::split(header@, ';'),
            first_value(all, name@) == first_value(all.skip(i as int), name@),
        decreases pieces@.len() - i,
    {
        let piece = pieces[i].as_slice();
        let ghost rest = all.skip(i as int);
        assert(rest[0] == piece@);
        assert(rest.drop_first() =~= all.skip(i + 1));
        if let Some((k, v)) = text::cut(piece, '=') {
            let key = text::string_of(text::trimmed(k, text::Class::White));
            if text::same(key.as_str(), name) {
                return Some(text::string_of(text::trimmed(v, text::Class::White)));
            }
        }
        i += 1;
    }
    assert(all.skip(i as int) =~= Seq::empty());
    None
}

/// A text can be the value of a cookie: it holds no semicolon, and no white space stands
/// at either end of it.
pub open spec fn is_value(token: Seq<char>) -> bool {
    &&& forall|i: int| 0 <= i < token.len() ==> #[trigger] token[i] != ';'
    &&& text::trim(token, text::Class::White) == token
}

/// Every token can be the value of a cookie.
pub proof fn law_tokens_are_cookie_values(token: Seq<char>)
    requires
        is_token(token),
    ensures
        is_value(token),
{
    let bytes = choose|bytes: Seq<u8>|
        bytes.len() == 32 && token == #[trigger] crypto::url_base64_of(bytes);
    crypto::lemma_url_signs(bytes);
    assert forall|i: int| 0 <= i < token.len() implies #[trigger] token[i] != ';'
        && !text::is_white(token[i]) by {
        assert(crypto::is_url_sign(token[i]));
    }
    text::lemma_prefix_len(token, text::Class::White);
    text::lemma_suffix_len(token, text::Class::White);
    assert(text::trim_start(token, text::Class::White) =~= token);
    assert(text::trim(token, text::Class::White) =~= token);
}

/// The value of a cookie is read from what begins with its name and the value.
proof fn lemma_front_value(token: Seq<char>, rest: Seq<char>)
    requires
        is_value(token),
        rest.len() > 0 ==> rest[0] == ';',
    ensures
        cookie_in(COOKIE_NAME@ + "="@ + token + rest, COOKIE_NAME@) == Some(token),
{
    reveal_strlit("wp_panel_session");
    reveal_strlit("=");
    let name = COOKIE_NAME@;
    let front = name + "="@ + token;
    let whole = front + rest;
    let n = front.len() as int;
    let m = name.len() as int;
    assert forall|i: int| 0 <= i < n implies text::Class::IsNot(';').spec_has(#[trigger] whole[i]) by {
        if i > m {
            assert(whole[i] == token[i - m - 1]);
        }
    }
    if rest.len() > 0 {
        assert(whole[n] == ';');
    }
    text::lemma_prefix_len_is(whole, text::Class::IsNot(';'), n);
    assert(text::split(whole, ';')[0] =~= front);
    assert(front[m] == '=');
    text::lemma_prefix_len_is(front, text::Class::IsNot('='), m);
    assert(front.take(m) =~= name);
    assert(front.skip(m + 1) =~= token);
    assert(text::trim(name, text::Class::White) =~= name);
}

/// The token is read from the session cookie, and from the name and the value that a
/// browser sends back of it. In the cookie that signs a browser out the token is empty.
pub proof fn law_session_cookie_is_read_back(token: Seq<char>, secure: bool)
    requires
        is_value(token),
    ensures
        cookie_in(signed_in(token, secure), COOKIE_NAME@) == Some(token),
        cookie_in(COOKIE_NAME@ + "="@ + token, COOKIE_NAME@) == Some(token),
        cookie_in(signed_out(secure), COOKIE_NAME@) == Some(Seq::<char>::empty()),
{
    reveal_strlit("=");
    reveal_strlit("; Path=/; HttpOnly; SameSite=Lax; Max-Age=");
    reveal_strlit("=; Path=/; HttpOnly; SameSite=Lax; Max-Age=0");
    let front = COOKIE_NAME@ + "="@ + token;
    let rest = "; Path=/; HttpOnly; SameSite=Lax; Max-Age="@ + digits::dec_int(
        SESSION_TTL_DAYS * 24 * 3600,
    ) + secure_mark(secure);
    lemma_front_value(token, rest);
    assert(signed_in(token, secure) =~= front + rest);
    lemma_front_value(token, Seq::empty());
    assert(front + Seq::<char>::empty() =~= front);
    let none = Seq::<char>::empty();
    let end = "=; Path=/; HttpOnly; SameSite=Lax; Max-Age=0"@.skip(1) + secure_mark(secure);
    assert(text::trim(none, text::Class::White) =~= none);
    lemma_front_value(none, end);
    assert(signed_out(secure) =~= COOKIE_NAME@ + "="@ + none + end);
}

// ---------------------------------------------------------------------------
// Guards
// ---------------------------------------------------------------------------

/// What the guard of the HTML routes does with a request.
#[derive(Debug, Clone, Copy, PartialEq, Eq, Structural)]
pub enum Guard {
    /// The browser is sent to the login form.
    Redirect,
    /// The browser is told to go to the login form by itself, so partial swaps do not
    /// paint a login form inside a panel.
    ClientRedirect,
    /// The request goes on.
    Pass,
    /// The request goes on if its form holds a valid token: [`guard_form`] follows.
    ReadForm,
    /// The request holds no valid token.
    Reject,
}

/// What [`guard_session`] decides, given whether the token in the header verifies.
pub open spec fn guarded(
    known: bool,
    htmx: bool,
    safe: bool,
    in_header: bool,
    verified: bool,
) -> Guard {
    if !known {
        if htmx {
            Guard::ClientRedirect
        } else {
            Guard::Redirect
        }
    } else if safe {
        Guard::Pass
    } else if !in_header {
        Guard::ReadForm
    } else if verified {
        Guard::Pass
    } else {
        Guard::Reject
    }
}

/// A state-changing request goes on only for a known user who presents a token that
/// verifies, in the header or, once it was read, in the form.
pub proof fn law_state_changes_need_a_token(htmx: bool, known: bool, in_header: bool, verified: bool)
    ensures
        guarded(known, htmx, false, in_header, verified) == Guard::Pass ==> known && in_header
            && verified,
        guarded(known, htmx, false, in_header, verified) == Guard::ReadForm ==> known
            && !in_header,
{
}

/// A presented text is a token of the session on a day; without either it is none.
pub open spec fn verifies_on(
    key: CsrfKey,
    session: Option<Seq<char>>,
    presented: Option<Seq<char>>,
    day: i64,
) -> bool {
    match session {
        Some(s) => match presented {
            Some(t) => csrf::verifies(key.0@, s, t, day as int),
            None => false,
        },
        None => false,
    }
}

/// The view of an optional text.
pub open spec fn shown(o: Option<&str>) -> Option<Seq<char>> {
    match o {
        Some(s) => Some(s@),
        None => None,
    }
}

/// Whether a presented text is a token of the session.
pub fn verifies_now(key: &CsrfKey, session: Option<&str>, presented: Option<&str>) -> (r: bool)
    ensures
        exists|day: i64| r == #[trigger] verifies_on(*key, shown(session), shown(presented), day),
{
    let r = csrf::check_token(key, session, presented);
    proof {
        match (session, presented) {
            (Some(s), Some(t)) => {
                let d = choose|d: i64| r == #[trigger] csrf::verifies(key.0@, s@, t@, d as int);
                assert(r == verifies_on(*key, shown(session), shown(presented), d));
            },
            _ => {
                assert(r == verifies_on(*key, shown(session), shown(presented), 0));
            },
        }
    }
    r
}

/// Guard for HTML routes: unauthenticated browsers are redirected to /login. For
/// authenticated requests, CSRF is enforced on state-changing methods by checking the
/// `x-csrf-token` header, or else the `csrf_token` form field.
pub fn guard_session(
    key: &CsrfKey,
    known: bool,
    htmx: bool,
    safe: bool,
    session: Option<&str>,
    in_header: Option<&str>,
) -> (g: Guard)
    ensures
        exists|day: i64|
            g == guarded(
                known,
                htmx,
                safe,
                in_header is Some,
                #[trigger] verifies_on(*key, shown(session), shown(in_header), day),
            ),
{
    let ok = verifies_now(key, session, in_header);
    if !known {
        if htmx {
            Guard::ClientRedirect
        } else {
            Guard::Redirect
        }
    } else if safe {
        Guard::Pass
    } else if in_header.is_none() {
        Guard::ReadForm
    } else if ok {
        Guard::Pass
    } else {
        Guard::Reject
    }
}

/// The value of a field in an URL-encoded form, if the form reads and has the field.
pub uninterp spec fn form_field(form: Seq<u8>, name: Seq<char>) -> Option<Seq<char>>;

/// Calls `serde_urlencoded::from_bytes` for a map of texts, and looks the name up in it:
/// the value depends on the form and the name alone.
#[verifier::external_body]
fn read_form_field(form: &[u8], name: &str) -> (r: Option<String>)
    ensures
        text::text_opt(r) == form_field(form@, name@),
{
    serde_urlencoded::from_bytes::<std::collections::HashMap<String, String>>(form)
        .ok()
        .and_then(|m| m.get(name).cloned())
}

/// Whether the field of a form is a token of the session.
pub fn form_verifies(key: &CsrfKey, session: Option<&str>, field: &Option<String>) -> (r: bool)
    ensures
        exists|day: i64|
            r == #[trigger] verifies_on(*key, shown(session), text::text_opt(*field), day),
{
    match field {
        Some(t) => verifies_now(key, session, Some(t.as_str())),
        None => verifies_now(key, session, None),
    }
}

/// Guard for a state-changing request whose token is in its form: whether the request
/// goes on.
pub fn guard_form(key: &CsrfKey, session: Option<&str>, form: &[u8]) -> (r: bool)
    ensures
        exists|day: i64|
            r == #[trigger] verifies_on(
                *key,
                shown(session),
                form_field(form@, "csrf_token"@),
                day,
            ),
{
    let field = read_form_field(form, "csrf_token");
    form_verifies(key, session, &field)
}

/// What the guard of the JSON API does with a request.
#[derive(Debug)]
pub enum ApiGuard {
    /// The request goes on as the user of the session.
    Session,
    /// The user of this token is to be looked up: [`token_verdict`] follows.
    Token(String),
    /// The request is answered with a status and a text.
    Deny { status: u16, text: &'static str },
}

/// The bearer token in a header.
pub open spec fn bearer(header: Option<Seq<char>>) -> Option<Seq<char>> {
    match header {
        Some(h) => text::strip_prefix(h, "Bearer "@),
        None => None,
    }
}

/// Guard for the JSON API: session cookie or bearer token, never a redirect.
pub fn guard_api(has_session: bool, header: &Option<String>) -> (g: ApiGuard)
    ensures
        if has_session {
            g is Session
        } else {
            match bearer(text::text_opt(*header)) {
                Some(t) => g matches ApiGuard::Token(token) && token@ == t,
                None => g matches ApiGuard::Deny { status, text } && status == 401 && text@
                    == "authentication required"@,
            }
        },
{
    if has_session {
        return ApiGuard::Session;
    }
    if let Some(h) = header {
        let cs = text::chars_of(h.as_str());
        if let Some(t) = text::after_prefix(cs.as_slice(), "Bearer ") {
            return ApiGuard::Token(text::string_of(t));
        }
    }
    ApiGuard::Deny { status: 401, text: "authentication required" }
}

/// What came of looking a token up.
#[derive(Debug, Clone, Copy, PartialEq, Eq, Structural)]
pub enum Lookup {
    Found,
    Unknown,
    Failed,
}

/// What a request whose token was looked up is answered, unless it goes on.
pub fn token_verdict(lookup: Lookup) -> (r: Option<(u16, &'static str)>)
    ensures
        match lookup {
            Lookup::Found => r is None,
            Lookup::Unknown => r matches Some(a) && a.0 == 401 && a.1@
                == "invalid or revoked token"@,
            Lookup::Failed => r matches Some(a) && a.0 == 500 && a.1@ == "internal error"@,
        },
{
    match lookup {
        Lookup::Found => None,
        Lookup::Unknown => Some((401, "invalid or revoked token")),
        Lookup::Failed => Some((500, "internal error")),
    }
}

/// The raw session token of a request.
#[derive(Debug)]
pub struct CurrentSession(pub String);

// ---------------------------------------------------------------------------
// Login throttling
// ---------------------------------------------------------------------------

pub const THROTTLE_WINDOW_MINUTES: i64 = 15;

pub const THROTTLE_MAX_FAILURES: i64 = 6;

/// How long login attempts are kept, in hours.
pub const ATTEMPT_HOURS: i64 = 24;

/// Whether that many failures within the window are too many.
pub fn is_locked(failures: i64) -> (r: bool)
    ensures
        r == (failures >= THROTTLE_MAX_FAILURES),
{
    failures >= THROTTLE_MAX_FAILURES
}

/// From when on failures count at `now`.
pub fn throttle_window(now: &UtcTime) -> (t: UtcTime)
    requires
        now.wf(),
        clock::MIN_SECS + 900 <= now.secs,
    ensures
        t.secs == now.secs - THROTTLE_WINDOW_MINUTES * 60,
        t.nanos == now.nanos,
        t.wf(),
{
    now.plus_seconds(-900)
}

/// Before when attempts are dropped at `now`.
pub fn attempt_cutoff(now: &UtcTime) -> (t: UtcTime)
    requires
        now.wf(),
        clock::MIN_SECS + 86_400 <= now.secs,
    ensures
        t.secs == now.secs - ATTEMPT_HOURS * 3600,
        t.nanos == now.nanos,
        t.wf(),
{
    now.plus_seconds(-86_400)
}

/// When a session that begins at `now` ends.
pub fn session_expiry(now: &UtcTime) -> (t: UtcTime)
    requires
        now.wf(),
        now.secs <= clock::MAX_SECS - 1_209_600,
    ensures
        t.secs == now.secs + SESSION_TTL_DAYS * 86_400,
        t.nanos == now.nanos,
        t.wf(),
{
    now.plus_seconds(1_209_600)
}

} // verus!
