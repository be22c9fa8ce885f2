//! What the host's Nginx can actually do.
//!
//! Config we generate must match the binary that is installed, not the newest
//! Nginx we know about. Two directives in particular differ by version:
//!
//! * `http2 on;` exists from 1.25.1. Debian 12 ships 1.22.1 and Ubuntu 24.04
//!   ships 1.24.0, where the only form is `listen 443 ssl http2;`.
//! * `brotli on;` needs the third-party `ngx_brotli` module, which distro
//!   packages leave out.

use vstd::prelude::*;
use vstd::slice::slice_subrange;
use crate::agent::exec::{CommandOutput, OutputView};
use crate::agent::plan;
use crate::agent::plan::Action;
use crate::digits;
use crate::text;

verus! {

#[derive(Debug, Clone, Copy, PartialEq, Eq)]
pub struct NginxCapabilities {
    /// Parsed `nginx version: nginx/X.Y.Z`.
    pub version: (u32, u32, u32),
    /// `http2 on;` is understood (>= 1.25.1). Otherwise use the `listen`
    /// parameter form.
    pub http2_directive: bool,
    /// Built with `--with-http_v3_module`.
    pub http3: bool,
    /// `ngx_brotli` compiled in (static or dynamic).
    pub brotli: bool,
    /// `ngx_cache_purge` compiled in: enables targeted FastCGI cache purging.
    pub cache_purge: bool,
    /// False when no usable `nginx` binary was found.
    pub detected: bool,
}

/// The number that piece `i` of a version writes.
pub open spec fn piece(pieces: Seq<Seq<char>>, i: int) -> Option<u32> {
    if 0 <= i < pieces.len() {
        match digits::parse(pieces[i], u32::MAX as nat) {
            Some(n) => Some(n as u32),
            None => None,
        }
    } else {
        None
    }
}

/// A number, or zero in its place.
pub open spec fn or_zero(n: Option<u32>) -> u32 {
    match n {
        Some(v) => v,
        None => 0,
    }
}

/// `1.24.0` in `nginx version: nginx/1.24.0 (Ubuntu)`: the run of digits and
/// points after the first `nginx/`, split at the points. The first number must
/// be there, the others are zero where they are not.
pub open spec fn version_in(output: Seq<char>) -> Option<(u32, u32, u32)> {
    match text::find(output, "nginx/"@) {
        None => None,
        Some(at) => {
            let rest = output.skip(at + "nginx/"@.len());
            let run = rest.take(text::prefix_len(rest, text::Class::DigitOrDot));
            let pieces = text::split(run, '.');
            match piece(pieces, 0) {
                None => None,
                Some(major) => Some((major, or_zero(piece(pieces, 1)), or_zero(piece(pieces, 2)))),
            }
        },
    }
}

/// Versions are compared number by number.
pub open spec fn at_least(v: (u32, u32, u32), w: (u32, u32, u32)) -> bool {
    v.0 > w.0 || (v.0 == w.0 && (v.1 > w.1 || (v.1 == w.1 && v.2 >= w.2)))
}

impl NginxCapabilities {
    /// Used when probing fails: the output works on every supported Nginx.
    /// Legacy `listen ... http2`, no brotli, no HTTP/3.
    pub open spec fn spec_conservative() -> NginxCapabilities {
        NginxCapabilities {
            version: (1, 24, 0),
            http2_directive: false,
            http3: false,
            brotli: false,
            cache_purge: false,
            detected: false,
        }
    }

    /// Used when probing fails: the output works on every supported Nginx.
    /// Legacy `listen ... http2`, no brotli, no HTTP/3.
    pub fn conservative() -> (caps: Self)
        ensures
            caps == Self::spec_conservative(),
    {
        NginxCapabilities {
            version: (1, 24, 0),
            http2_directive: false,
            http3: false,
            brotli: false,
            cache_purge: false,
            detected: false,
        }
    }

    /// What the combined output of `nginx -V` tells.
    pub open spec fn spec_parse(output: Seq<char>) -> NginxCapabilities {
        let version = match version_in(output) {
            Some(v) => v,
            None => Self::spec_conservative().version,
        };
        NginxCapabilities {
            version,
            http2_directive: at_least(version, (1, 25, 1)),
            http3: text::has(output, "--with-http_v3_module"@),
            brotli: text::has(output, "ngx_brotli"@) || text::has(output, "brotli"@),
            cache_purge: text::has(output, "ngx_cache_purge"@) || text::has(
                output,
                "cache-purge"@,
            ) || text::has(output, "cache_purge"@),
            detected: true,
        }
    }

    /// Pure parser over the combined output of `nginx -V`.
    pub fn parse(output: &str) -> (caps: Self)
        ensures
            caps == Self::spec_parse(output@),
    {
        let version = match parse_version(output) {
            Some(v) => v,
            None => (1, 24, 0),
        };
        let (major, minor, patch): (u32, u32, u32) = version;
        NginxCapabilities {
            version,
            http2_directive: major > 1 || (major == 1 && (minor > 25 || (minor == 25 && patch
                >= 1))),
            http3: text::has_text(output, "--with-http_v3_module"),
            brotli: text::has_text(output, "ngx_brotli") || text::has_text(output, "brotli"),
            cache_purge: text::has_text(output, "ngx_cache_purge") || text::has_text(
                output,
                "cache-purge",
            ) || text::has_text(output, "cache_purge"),
            detected: true,
        }
    }

    /// `1.24.0`
    pub open spec fn spec_version_label(self) -> Seq<char> {
        digits::dec(self.version.0 as nat) + "."@ + digits::dec(self.version.1 as nat) + "."@
            + digits::dec(self.version.2 as nat)
    }

    pub fn version_label(&self) -> (s: String)
        ensures
            s@ == self.spec_version_label(),
    {
        let a = digits::dec_u64(self.version.0 as u64);
        let b = digits::dec_u64(self.version.1 as u64);
        let c = digits::dec_u64(self.version.2 as u64);
        text::cat5(a.as_str(), ".", b.as_str(), ".", c.as_str())
    }

    /// What is asked of the host to learn them. Read-only, so it runs in dry-run
    /// too: the generated config must be correct for the host either way.
    pub fn probe() -> (a: Action)
        ensures
            a@ == plan::probe("nginx"@, seq!["-V"@]),
    {
        plan::run_probe("nginx", text::list1("-V"))
    }

    /// What the answer to [`NginxCapabilities::probe`] tells. Nginx writes it to
    /// the standard error; older builds use the standard output.
    pub fn from_probe(output: Option<&CommandOutput>) -> (caps: Self)
        ensures
            caps == match output {
                Some(out) => Self::spec_parse(out@.stderr + "\n"@ + out@.stdout),
                None => Self::spec_conservative(),
            },
    {
        match output {
            Some(out) => {
                let combined = text::cat3(out.stderr.as_str(), "\n", out.stdout.as_str());
                Self::parse(combined.as_str())
            },
            None => Self::conservative(),
        }
    }
}

/// Executable form of [`piece`].
fn read_piece(pieces: &Vec<Vec<char>>, i: usize) -> (r: Option<u32>)
    ensures
        r == piece(text::rows(pieces@), i as int),
{
    if i < pieces.len() {
        assert(text::rows(pieces@)[i as int] == pieces@[i as int]@);
        match digits::parse_max(pieces[i].as_slice(), u32::MAX as u64) {
            Some(n) => Some(n as u32),
            None => None,
        }
    } else {
        None
    }
}

/// Extracts `1.24.0` from `nginx version: nginx/1.24.0 (Ubuntu)`.
pub fn parse_version(output: &str) -> (r: Option<(u32, u32, u32)>)
    ensures
        r == version_in(output@),
{
    let cs = text::chars_of(output);
    let pat = text::chars_of("nginx/");
    match text::find_at(cs.as_slice(), pat.as_slice()) {
        None => None,
        Some(at) => {
            let rest = slice_subrange(cs.as_slice(), at + pat.len(), cs.len());
            let n = text::prefix(rest, text::Class::DigitOrDot);
            let run = slice_subrange(rest, 0, n);
            assert(rest@ =~= output@.skip(at + "nginx/"@.len()));
            assert(run@ =~= rest@.take(n as int));
            let pieces = text::pieces(run, '.');
            let minor = match read_piece(&pieces, 1) {
                Some(v) => v,
                None => 0,
            };
            let patch = match read_piece(&pieces, 2) {
                Some(v) => v,
                None => 0,
            };
            match read_piece(&pieces, 0) {
                None => None,
                Some(major) => Some((major, minor, patch)),
            }
        },
    }
}

/// Digits up to a point are the first piece of what they begin.
proof fn lemma_first_piece(a: Seq<char>, rest: Seq<char>)
    requires
        digits::all_digits(a),
    ensures
        text::split(a, '.') == seq![a],
        text::split(a + "."@ + rest, '.') == seq![a] + text::split(rest, '.'),
{
    reveal_strlit(".");
    let class = text::Class::IsNot('.');
    let n = a.len() as int;
    let whole = a + "."@ + rest;
    text::lemma_prefix_len_is(a, class, n);
    assert forall|i: int| 0 <= i < n implies class.spec_has(#[trigger] whole[i]) by {
        assert(text::is_digit(a[i]));
    }
    assert(whole[n] == '.');
    text::lemma_prefix_len_is(whole, class, n);
    assert(whole.take(n) =~= a);
    assert(whole.skip(n + 1) =~= rest);
}

/// The first `nginx/` in a line with the version is the one before the version.
proof fn lemma_version_place(label: Seq<char>)
    ensures
        text::find("nginx version: nginx/"@ + label, "nginx/"@) == Some(15int),
{
    reveal_strlit("nginx version: nginx/");
    reveal_strlit("nginx/");
    let front = "nginx version: nginx/"@;
    let line = front + label;
    assert(line.subrange(15, 21) =~= "nginx/"@);
    assert forall|j: int| 0 <= j < 15 implies !text::occurs_at(line, "nginx/"@, j) by {
        if text::occurs_at(line, "nginx/"@, j) {
            assert(line.subrange(j, j + 6)[5] == '/');
            assert(front[j + 5] == '/');
        }
    }
    text::lemma_find_from(line, "nginx/"@, 0);
    assert(text::occurs_at(line, "nginx/"@, 15));
}

/// The label of a version, read where Nginx writes its version, gives the version.
pub proof fn law_version_label_reads_back(caps: NginxCapabilities)
    ensures
        NginxCapabilities::spec_parse(
            "nginx version: nginx/"@ + caps.spec_version_label(),
        ).version == caps.version,
{
    reveal_strlit("nginx version: nginx/");
    reveal_strlit("nginx/");
    reveal_strlit(".");
    let a = digits::dec(caps.version.0 as nat);
    let b = digits::dec(caps.version.1 as nat);
    let c = digits::dec(caps.version.2 as nat);
    let max = u32::MAX as nat;
    digits::lemma_dec(caps.version.0 as nat);
    digits::lemma_dec(caps.version.1 as nat);
    digits::lemma_dec(caps.version.2 as nat);
    digits::lemma_dec_parses(caps.version.0 as nat, max);
    digits::lemma_dec_parses(caps.version.1 as nat, max);
    digits::lemma_dec_parses(caps.version.2 as nat, max);
    let label = caps.spec_version_label();
    let line = "nginx version: nginx/"@ + label;
    lemma_version_place(label);
    assert(line.skip(21) =~= label);
    let class = text::Class::DigitOrDot;
    assert forall|i: int| 0 <= i < label.len() implies class.spec_has(#[trigger] label[i]) by {
        let m = a.len() + 1;
        let n = m + b.len() + 1;
        if i < a.len() {
            assert(label[i] == a[i]);
        } else if i == a.len() || i == n - 1 {
            assert(label[i] == '.');
        } else if i < n - 1 {
            assert(label[i] == b[i - m]);
        } else {
            assert(label[i] == c[i - n]);
        }
    }
    text::lemma_prefix_len_is(label, class, label.len() as int);
    assert(label.take(label.len() as int) =~= label);
    assert(label =~= a + "."@ + (b + "."@ + c));
    lemma_first_piece(a, b + "."@ + c);
    lemma_first_piece(b, c);
    lemma_first_piece(c, Seq::empty());
    let pieces = text::split(label, '.');
    assert(pieces =~= seq![a, b, c]);
}

} // verus!
