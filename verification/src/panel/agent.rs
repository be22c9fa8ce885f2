//! How the panel talks to its agents. It only ever sends typed operations: no shell
//! strings cross this boundary.
//!
//! Each server's certificate fingerprint is used to accept only that specific agent's
//! certificate.

use vstd::prelude::*;
use vstd::slice::slice_subrange;
use vstd::utf8;
use crate::agent::tls;
use crate::common::error::{Error, ErrorView};
use crate::common::protocol::{OperationData, OperationResult};
use crate::crypto;
use crate::text;

verus! {

/// Connection parameters for a specific server.
#[derive(Debug)]
pub struct ServerConnection {
    pub url: String,
    pub token: String,
    /// SHA-256 fingerprint of the agent's TLS leaf certificate, e.g.
    /// `"sha256:AB:CD:..."`.  `None` means the server is accessed over plain
    /// HTTP (allowed only for loopback in dev).
    pub fingerprint: Option<String>,
}

/// Where operations are sent.
pub open spec fn endpoint(url: Seq<char>) -> Seq<char> {
    text::trim_end(url, text::Class::Is('/')) + "/v1/operations"@
}

/// The part of `s` in front of the first `c`.
pub open spec fn up_to(s: Seq<char>, c: char) -> Seq<char> {
    s.take(text::prefix_len(s, text::Class::IsNot(c)))
}

/// The host and port of an address, given what stands after its scheme.
pub open spec fn authority(rest: Seq<char>) -> Seq<char> {
    up_to(up_to(up_to(rest, '/'), '?'), '#')
}

/// Every character is of a class.
pub open spec fn made_of(s: Seq<char>, class: text::Class) -> bool {
    text::prefix_len(s, class) == s.len()
}

/// A host and port are of this machine: `localhost`, an IPv4 address that starts with
/// 127, or the loopback address of IPv6, without a user name before it.
pub open spec fn on_this_machine(place: Seq<char>) -> bool {
    let host = up_to(place, ':');
    made_of(place, text::Class::IsNot('@')) && (place == "[::1]"@ || text::starts_with(
        place,
        "[::1]:"@,
    ) || host == "localhost"@ || text::starts_with(host, "127."@) && made_of(
        host,
        text::Class::DigitOrDot,
    ))
}

/// An address is reached over plain HTTP without leaving the machine.
pub open spec fn is_loopback(url: Seq<char>) -> bool {
    match text::strip_prefix(url, "http://"@) {
        Some(rest) => on_this_machine(authority(rest)),
        None => false,
    }
}

/// Executable form of [`up_to`].
fn cut_at(s: &[char], c: char) -> (r: &[char])
    ensures
        r@ == up_to(s@, c),
{
    let n = text::prefix(s, text::Class::IsNot(c));
    let r = slice_subrange(s, 0, n);
    assert(r@ =~= up_to(s@, c));
    r
}

/// Executable form of [`is_loopback`].
fn reaches_loopback(url: &str) -> (r: bool)
    ensures
        r == is_loopback(url@),
{
    let cs = text::chars_of(url);
    match text::after_prefix(cs.as_slice(), "http://") {
        None => false,
        Some(rest) => {
            let place = cut_at(cut_at(cut_at(rest, '/'), '?'), '#');
            let host = cut_at(place, ':');
            let name = text::string_of(host);
            let whole = text::string_of(place);
            text::prefix(place, text::Class::IsNot('@')) == place.len() && (text::same(
                whole.as_str(),
                "[::1]",
            ) || text::begins(place, "[::1]:") || text::same(name.as_str(), "localhost")
                || text::begins(host, "127.") && text::prefix(host, text::Class::DigitOrDot)
                == host.len())
        },
    }
}

/// Without a fingerprint no address is reached over TLS, and over plain HTTP only one
/// whose host is `localhost`, starts with `127.`, or is the loopback address of IPv6.
pub proof fn law_only_this_machine_is_reached_unpinned(url: Seq<char>, rest: Seq<char>)
    ensures
        is_loopback(url) ==> text::starts_with(url, "http://"@),
        !is_loopback("https://"@ + rest),
        is_loopback("http://"@ + rest) ==> text::starts_with(authority(rest), "localhost"@)
            || text::starts_with(authority(rest), "127."@) || text::starts_with(
            authority(rest),
            "[::1]"@,
        ),
{
    reveal_strlit("http://");
    reveal_strlit("https://");
    reveal_strlit("localhost");
    reveal_strlit("127.");
    reveal_strlit("[::1]");
    reveal_strlit("[::1]:");
    let s = "https://"@ + rest;
    if text::starts_with(s, "http://"@) {
        assert(s.subrange(0, 7)[4] == s[4]);
    }
    let t = "http://"@ + rest;
    assert(t.subrange(0, 7) =~= "http://"@);
    assert(t.skip(7) =~= rest);
    let place = authority(rest);
    let host = up_to(place, ':');
    text::lemma_prefix_len(place, text::Class::IsNot(':'));
    if host == "localhost"@ {
        assert(place.subrange(0, 9) =~= "localhost"@);
    }
    if text::starts_with(host, "127."@) {
        assert(place.subrange(0, 4) =~= host.subrange(0, 4));
    }
    if place == "[::1]"@ {
        assert(place.subrange(0, 5) =~= "[::1]"@);
    }
    if text::starts_with(place, "[::1]:"@) {
        assert(place.subrange(0, 5) =~= place.subrange(0, 6).take(5));
        assert("[::1]:"@.take(5) =~= "[::1]"@);
    }
}

/// What is said of a connection that would be TLS to nobody in particular, or plain HTTP
/// to another machine.
pub open spec fn unpinned(url: Seq<char>) -> ErrorView {
    ErrorView::Unreachable(
        if text::starts_with(endpoint(url), "https:"@) {
            "HTTPS requires a fingerprint"@
        } else {
            "plain HTTP is allowed for loopback only"@
        },
    )
}

impl ServerConnection {
    /// Where operations are sent. Without a fingerprint that is plain HTTP on this
    /// machine only.
    pub fn operations_url(&self) -> (r: Result<String, Error>)
        ensures
            match r {
                Ok(url) => url@ == endpoint(self.url@) && (self.fingerprint is Some || is_loopback(
                    self.url@,
                )),
                Err(e) => self.fingerprint is None && !is_loopback(self.url@) && e@ == unpinned(
                    self.url@,
                ),
            },
    {
        let cs = text::chars_of(self.url.as_str());
        let base = text::string_of(text::trimmed_end(cs.as_slice(), text::Class::Is('/')));
        let url = text::cat2(base.as_str(), "/v1/operations");
        let all = text::chars_of(url.as_str());
        if self.fingerprint.is_none() && !reaches_loopback(self.url.as_str()) {
            if text::begins(all.as_slice(), "https:") {
                return Err(Error::Unreachable("HTTPS requires a fingerprint".to_owned()));
            }
            return Err(
                Error::Unreachable("plain HTTP is allowed for loopback only".to_owned()),
            );
        }
        Ok(url)
    }
}

/// How a request to an agent went.
pub enum Exchange {
    /// No client could be built, for this reason.
    NoClient(String),
    /// The agent could not be reached, for this reason.
    NotSent(String),
    /// The agent refused the token.
    Refused,
    /// The answer could not be read, for this reason.
    Garbled(String),
    /// The agent answered.
    Answered(OperationResult),
}

/// What an exchange with the agent at `url` comes to.
pub fn answer(url: &str, exchange: Exchange) -> (r: Result<OperationResult, Error>)
    ensures
        match exchange {
            Exchange::NoClient(reason) => r matches Err(e) && e@ == ErrorView::Unreachable(
                "building client for "@ + url@ + ": "@ + reason@,
            ),
            Exchange::NotSent(reason) => r matches Err(e) && e@ == ErrorView::Unreachable(
                url@ + ": "@ + reason@,
            ),
            Exchange::Refused => r matches Err(e) && e@ == ErrorView::Unauthorized,
            Exchange::Garbled(reason) => r matches Err(e) && e@ == ErrorView::Internal(
                "decoding agent response: "@ + reason@,
            ),
            Exchange::Answered(result) => r == Ok::<OperationResult, Error>(result),
        },
{
    match exchange {
        Exchange::NoClient(reason) => Err(
            Error::Unreachable(text::cat4("building client for ", url, ": ", reason.as_str())),
        ),
        Exchange::NotSent(reason) => Err(
            Error::Unreachable(text::cat3(url, ": ", reason.as_str())),
        ),
        Exchange::Refused => Err(Error::Unauthorized),
        Exchange::Garbled(reason) => Err(
            Error::Internal(text::cat2("decoding agent response: ", reason.as_str())),
        ),
        Exchange::Answered(result) => Ok(result),
    }
}

/// What a query comes to: the data of a success, or the error of a failure.
pub fn query_data(result: OperationResult) -> (r: Result<OperationData, Error>)
    ensures
        if result.success {
            r == Ok::<OperationData, Error>(result.data)
        } else {
            match result.error {
                Some(e) => r == Err::<OperationData, Error>(e),
                None => r matches Err(e) && e@ == ErrorView::Internal("agent query failed"@),
            }
        },
{
    if result.success {
        Ok(result.data)
    } else {
        match result.error {
            Some(e) => Err(e),
            None => Err(Error::internal("agent query failed")),
        }
    }
}

// ---------------------------------------------------------------------------
// Pinning
// ---------------------------------------------------------------------------

/// The value of a hexadecimal digit, small or capital.
pub open spec fn hex_value(c: char) -> Option<int> {
    if '0' <= c <= '9' {
        Some(c as int - 48)
    } else if 'a' <= c <= 'f' {
        Some(c as int - 87)
    } else if 'A' <= c <= 'F' {
        Some(c as int - 55)
    } else {
        None
    }
}

/// The byte that two characters write: two hexadecimal digits, or a plus sign and one.
pub open spec fn hex_byte(a: char, b: char) -> Option<int> {
    if a == '+' {
        hex_value(b)
    } else {
        match (hex_value(a), hex_value(b)) {
            (Some(x), Some(y)) => Some(16 * x + y),
            _ => None,
        }
    }
}

/// A fingerprint as it is compared: without its prefix and its colons.
pub open spec fn bare(fingerprint: Seq<char>) -> Seq<char> {
    let t = text::lowercase(text::trim(fingerprint, text::Class::White));
    let u = match text::strip_prefix(t, "sha256:"@) {
        Some(rest) => rest,
        None => t,
    };
    text::replace(u, ':', ""@)
}

/// What is wrong with a certificate under a fingerprint.
#[derive(Debug, Clone, Copy, PartialEq, Eq, Structural)]
pub enum PinError {
    Length,
    Hex,
    Mismatch,
}

impl PinError {
    /// The error as it is shown.
    pub open spec fn spec_message(self) -> Seq<char> {
        match self {
            PinError::Length => "invalid fingerprint length"@,
            PinError::Hex => "invalid fingerprint hex"@,
            PinError::Mismatch => "fingerprint mismatch"@,
        }
    }

    /// The error as it is shown.
    pub fn message(&self) -> (s: &'static str)
        ensures
            s@ == self.spec_message(),
    {
        match self {
            PinError::Length => "invalid fingerprint length",
            PinError::Hex => "invalid fingerprint hex",
            PinError::Mismatch => "fingerprint mismatch",
        }
    }
}

/// Every pair of characters writes a byte.
pub open spec fn is_hex(s: Seq<char>) -> bool {
    forall|i: int|
        0 <= i < s.len() / 2 ==> (#[trigger] hex_byte(s[2 * i], s[2 * i + 1])) is Some
}

/// The bytes that pairs of characters write.
pub open spec fn hex_bytes(s: Seq<char>) -> Seq<u8> {
    Seq::new(s.len() / 2, |i: int| hex_byte(s[2 * i], s[2 * i + 1])->0 as u8)
}

/// What is wrong with a digest under a fingerprint, of which the bare form is given,
/// if anything is.
pub open spec fn pin_error(expected: Seq<char>, digest: Seq<u8>) -> Option<PinError> {
    if text::byte_len(expected) != 64 {
        Some(PinError::Length)
    } else if expected.len() != 64 || !is_hex(expected) {
        Some(PinError::Hex)
    } else if hex_bytes(expected) != digest {
        Some(PinError::Mismatch)
    } else {
        None
    }
}

/// Executable form of [`hex_value`].
fn read_hex(c: char) -> (r: Option<u8>)
    ensures
        match r {
            Some(v) => hex_value(c) == Some(v as int) && v < 16,
            None => hex_value(c) is None,
        },
{
    if '0' <= c && c <= '9' {
        Some(c as u8 - 48)
    } else if 'a' <= c && c <= 'f' {
        Some(c as u8 - 87)
    } else if 'A' <= c && c <= 'F' {
        Some(c as u8 - 55)
    } else {
        None
    }
}

/// Executable form of [`hex_byte`].
fn read_byte(a: char, b: char) -> (r: Option<u8>)
    ensures
        match r {
            Some(v) => hex_byte(a, b) == Some(v as int),
            None => hex_byte(a, b) is None,
        },
{
    if a == '+' {
        return read_hex(b);
    }
    match (read_hex(a), read_hex(b)) {
        (Some(x), Some(y)) => Some(16 * x + y),
        _ => None,
    }
}

/// Executable form of [`bare`].
pub fn bare_fingerprint(fingerprint: &str) -> (s: String)
    ensures
        s@ == bare(fingerprint@),
{
    let trimmed = text::trimmed_text(fingerprint);
    let small = text::in_lowercase(trimmed.as_str());
    let cs = text::chars_of(small.as_str());
    let rest = match text::after_prefix(cs.as_slice(), "sha256:") {
        Some(rest) => text::string_of(rest),
        None => small,
    };
    text::replaced(rest.as_str(), ':', "")
}

/// Whether two lists of bytes are the same; looks at every byte whatever the first
/// ones are.
fn same_bytes(x: &Vec<u8>, y: &[u8]) -> (r: bool)
    requires
        x@.len() == y@.len(),
    ensures
        r == (x@ == y@),
{
    let mut diff: u8 = 0;
    let mut i: usize = 0;
    assert(x@.take(0) =~= y@.take(0));
    while i < x.len()
        invariant
            i <= x@.len(),
            x@.len() == y@.len(),
            (diff == 0) == (x@.take(i as int) == y@.take(i as int)),
        decreases x@.len() - i,
    {
        let p: u8 = x[i];
        let q: u8 = y[i];
        let next: u8 = diff | (p ^ q);
        assert((next == 0) == (diff == 0 && p == q)) by (bit_vector)
            requires
                next == diff | (p ^ q),
        ;
        proof {
            let s = x@.take(i + 1);
            let t = y@.take(i + 1);
            assert(s.drop_last() =~= x@.take(i as int));
            assert(t.drop_last() =~= y@.take(i as int));
            assert(s.last() == p && t.last() == q);
            if s.drop_last() == t.drop_last() && s.last() == t.last() {
                assert(s =~= s.drop_last().push(s.last()));
                assert(t =~= t.drop_last().push(t.last()));
            }
            assert((s == t) == (s.drop_last() == t.drop_last() && s.last() == t.last()));
        }
        diff = next;
        i += 1;
    }
    assert(x@.take(i as int) =~= x@);
    assert(y@.take(i as int) =~= y@);
    diff == 0
}

/// Executable form of [`pin_error`].
pub fn check_digest(expected: &str, digest: &[u8]) -> (r: Option<PinError>)
    requires
        digest@.len() == 32,
    ensures
        r == pin_error(expected@, digest@),
{
    if text::bytes_in(expected) != 64 {
        return Some(PinError::Length);
    }
    let cs = text::chars_of(expected);
    if cs.len() != 64 {
        return Some(PinError::Hex);
    }
    let mut bytes: Vec<u8> = Vec::new();
    let mut i: usize = 0;
    while i < 32
        invariant
            i <= 32,
            cs@ == expected@,
            cs@.len() == 64,
            text::byte_len(expected@) == 64,
            bytes@.len() == i,
            forall|j: int|
                0 <= j < i ==> (#[trigger] hex_byte(cs@[2 * j], cs@[2 * j + 1])) == Some(
                    bytes@[j] as int,
                ),
        decreases 32 - i,
    {
        match read_byte(cs[2 * i], cs[2 * i + 1]) {
            Some(b) => {
                bytes.push(b);
            },
            None => {
                assert(hex_byte(expected@[2 * i as int], expected@[2 * i + 1]) is None);
                assert(!is_hex(expected@));
                return Some(PinError::Hex);
            },
        }
        i += 1;
    }
    assert(is_hex(expected@));
    assert(bytes@ =~= hex_bytes(expected@)) by {
        assert forall|j: int| 0 <= j < 32 implies bytes@[j] == #[trigger] hex_bytes(
            expected@,
        )[j] by {
            assert(hex_byte(cs@[2 * j], cs@[2 * j + 1]) == Some(bytes@[j] as int));
        }
    }
    if same_bytes(&bytes, digest) {
        None
    } else {
        Some(PinError::Mismatch)
    }
}

/// What is wrong with a certificate under a fingerprint, if anything is.
pub fn check_pin(fingerprint: &str, certificate: &[u8]) -> (r: Option<PinError>)
    ensures
        r == pin_error(bare(fingerprint@), crypto::sha256_of(certificate@)),
{
    let digest = crypto::sha256(certificate);
    let expected = bare_fingerprint(fingerprint);
    check_digest(expected.as_str(), digest.as_slice())
}

// ---------------------------------------------------------------------------
// The agent's own fingerprint
// ---------------------------------------------------------------------------

/// Bytes as small hexadecimal digits.
spec fn small(bytes: Seq<u8>) -> Seq<char>
    decreases bytes.len(),
{
    if bytes.len() == 0 {
        Seq::empty()
    } else {
        small(bytes.drop_last()) + text::lowered(tls::hex(bytes.last()))
    }
}

/// Replacing in two texts one after the other.
proof fn lemma_replace_parts(a: Seq<char>, b: Seq<char>)
    ensures
        text::replace(a + b, ':', ""@) == text::replace(a, ':', ""@) + text::replace(b, ':', ""@),
    decreases b.len(),
{
    if b.len() == 0 {
        assert(a + b =~= a);
        assert(text::replace(a, ':', ""@) + text::replace(b, ':', ""@) =~= text::replace(
            a,
            ':',
            ""@,
        ));
    } else {
        let c = a + b;
        assert(c.drop_last() =~= a + b.drop_last());
        assert(c.last() == b.last());
        lemma_replace_parts(a, b.drop_last());
        let front = text::replace(a, ':', ""@);
        let mid = text::replace(b.drop_last(), ':', ""@);
        if c.last() == ':' {
            assert(front + mid + ""@ =~= front + (mid + ""@));
        } else {
            assert((front + mid).push(c.last()) =~= front + mid.push(c.last()));
        }
    }
}

/// A byte in small hexadecimal digits: two characters of ASCII that are no colon, and
/// that write the byte.
proof fn lemma_hex(b: u8)
    ensures
        text::lowered(tls::hex(b)).len() == 2,
        text::lowered(tls::hex(b))[0] != ':',
        text::lowered(tls::hex(b))[1] != ':',
        hex_byte(text::lowered(tls::hex(b))[0], text::lowered(tls::hex(b))[1]) == Some(b as int),
        '\0' <= tls::hex(b)[0] <= '\u{7f}',
        '\0' <= tls::hex(b)[1] <= '\u{7f}',
        !text::is_white(tls::hex(b)[1]),
        '\0' <= text::lowered(tls::hex(b))[0] <= '\u{7f}',
        '\0' <= text::lowered(tls::hex(b))[1] <= '\u{7f}',
{
}

/// Without its colons, a fingerprint is the bytes in small digits.
proof fn lemma_small(bytes: Seq<u8>)
    ensures
        text::replace(text::lowered(tls::colons(bytes)), ':', ""@) == small(bytes),
        small(bytes).len() == 2 * bytes.len(),
        text::is_ascii(tls::colons(bytes)),
        text::is_ascii(small(bytes)),
        forall|i: int|
            0 <= i < bytes.len() ==> (#[trigger] hex_byte(
                small(bytes)[2 * i],
                small(bytes)[2 * i + 1],
            )) == Some(bytes[i] as int),
    decreases bytes.len(),
{
    reveal_strlit("");
    if bytes.len() == 0 {
        assert(text::lowered(tls::colons(bytes)) =~= Seq::empty());
    } else {
        let front = bytes.drop_last();
        let last = text::lowered(tls::hex(bytes.last()));
        lemma_small(front);
        lemma_hex(bytes.last());
        lemma_replace_two(last);
        if bytes.len() == 1 {
            assert(tls::colons(bytes) == tls::hex(bytes[0]));
            assert(small(front) =~= Seq::empty());
            assert(small(bytes) =~= last);
        } else {
            let a = text::lowered(tls::colons(front));
            let sep = seq![':'];
            assert(text::lowered(tls::colons(bytes)) =~= a + sep + last);
            lemma_replace_parts(a + sep, last);
            lemma_replace_parts(a, sep);
            assert(text::replace(sep, ':', ""@) =~= Seq::empty()) by {
                reveal_with_fuel(text::replace, 2);
                assert(sep.drop_last() =~= Seq::empty());
            }
            assert(small(front) + Seq::<char>::empty() =~= small(front));
        }
        assert forall|i: int| 0 <= i < bytes.len() implies (#[trigger] hex_byte(
            small(bytes)[2 * i],
            small(bytes)[2 * i + 1],
        )) == Some(bytes[i] as int) by {
            if i < front.len() {
                assert(hex_byte(small(front)[2 * i], small(front)[2 * i + 1]) == Some(
                    front[i] as int,
                ));
                assert(small(bytes)[2 * i] == small(front)[2 * i]);
                assert(small(bytes)[2 * i + 1] == small(front)[2 * i + 1]);
            }
        }
    }
}

/// Two characters that are no colon stay as they are.
proof fn lemma_replace_two(s: Seq<char>)
    requires
        s.len() == 2,
        s[0] != ':',
        s[1] != ':',
    ensures
        text::replace(s, ':', ""@) == s,
{
    reveal_with_fuel(text::replace, 3);
    assert(text::replace(s, ':', ""@) =~= s);
}

/// In ASCII a character is a byte.
proof fn lemma_ascii_bytes(s: Seq<char>)
    requires
        text::is_ascii(s),
    ensures
        text::byte_len(s) == s.len(),
{
    utf8::is_ascii_chars_encode_utf8(s);
}

/// The fingerprint that an agent shows for its certificate is one under which the
/// panel accepts that certificate.
pub proof fn law_own_fingerprint_is_accepted(certificate: Seq<u8>)
    requires
        crypto::sha256_of(certificate).len() == 32,
    ensures
        pin_error(bare(tls::fingerprint_of(certificate)), crypto::sha256_of(certificate)) is None,
{
    let digest = crypto::sha256_of(certificate);
    let f = tls::fingerprint_of(certificate);
    let shown = tls::colons(digest);
    reveal_strlit("sha256:");
    lemma_small(digest);
    lemma_hex(digest.last());
    assert(f.last() == tls::hex(digest.last())[1]) by {
        assert(shown.last() == tls::hex(digest.last())[1]);
    }
    assert(f[0] == 's');
    assert(text::trim(f, text::Class::White) =~= f);
    assert(text::is_ascii(f)) by {
        assert forall|i: int| 0 <= i < f.len() implies '\0' <= #[trigger] f[i] <= '\u{7f}' by {
            if i < 7 {
                assert(f[i] == "sha256:"@[i]);
            } else {
                assert(f[i] == shown[i - 7]);
            }
        }
    }
    let t = text::lowered(f);
    assert(t =~= "sha256:"@ + text::lowered(shown));
    assert(t.subrange(0, 7) =~= "sha256:"@);
    assert(t.skip(7) =~= text::lowered(shown));
    let b = bare(f);
    assert(b == small(digest));
    lemma_ascii_bytes(b);
    assert(is_hex(b)) by {
        assert forall|i: int| 0 <= i < b.len() / 2 implies (#[trigger] hex_byte(
            b[2 * i],
            b[2 * i + 1],
        )) is Some by {
            assert(hex_byte(b[2 * i], b[2 * i + 1]) == Some(digest[i] as int));
        }
    }
    assert(hex_bytes(b) =~= digest) by {
        assert forall|i: int| 0 <= i < 32 implies #[trigger] hex_bytes(b)[i] == digest[i] by {
            assert(hex_byte(b[2 * i], b[2 * i + 1]) == Some(digest[i] as int));
        }
    }
}

/// Under the fingerprint that an agent shows for its certificate, the panel accepts no
/// other one.
pub proof fn law_other_certificates_are_refused(certificate: Seq<u8>, digest: Seq<u8>)
    requires
        crypto::sha256_of(certificate).len() == 32,
        digest != crypto::sha256_of(certificate),
    ensures
        pin_error(bare(tls::fingerprint_of(certificate)), digest) == Some(PinError::Mismatch),
{
    law_own_fingerprint_is_accepted(certificate);
}

} // verus!
