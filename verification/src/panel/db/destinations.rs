//! Backup destinations. They store S3/R2/B2/Wasabi/MinIO credentials encrypted at
//! rest using [`SecretBox`].

use vstd::prelude::*;
use vstd::utf8;
use crate::common::error::{Error, ErrorView};
use crate::common::protocol;
use crate::common::protocol::{ResticTarget, ResticTargetView};
use crate::crypto;
use crate::json;
use crate::panel::secrets;
use crate::panel::secrets::SecretBox;
use crate::text;

verus! {

#[derive(Debug)]
pub struct Destination {
    pub id: i64,
    pub name: String,
    pub provider: String,
    pub bucket: String,
    pub region: Option<String>,
    pub endpoint: Option<String>,
    pub access_key_id: Option<String>,
    pub secret_sealed: Option<String>,
    pub restic_password_sealed: Option<String>,
    pub repo_prefix: String,
    pub created_at: String,
}

#[derive(Debug)]
pub struct DestinationForm {
    pub name: String,
    pub provider: String,
    pub bucket: String,
    pub region: String,
    pub endpoint: String,
    pub access_key_id: String,
    pub secret: String,
    pub restic_password: String,
}

#[derive(Debug)]
pub struct DestinationCredentials {
    pub access_key_id: String,
    pub secret: String,
    pub restic_password: String,
}

/// [`DestinationCredentials`] with its texts as sequences of characters.
pub struct CredentialsView {
    pub access_key_id: Seq<char>,
    pub secret: Seq<char>,
    pub restic_password: Seq<char>,
}

impl View for DestinationCredentials {
    type V = CredentialsView;

    open spec fn view(&self) -> CredentialsView {
        CredentialsView {
            access_key_id: self.access_key_id@,
            secret: self.secret@,
            restic_password: self.restic_password@,
        }
    }
}

// ---------------------------------------------------------------------------
// Storing
// ---------------------------------------------------------------------------

/// What is stored of a form.
#[derive(Debug)]
pub struct SealedForm {
    pub name: String,
    pub provider: String,
    pub bucket: String,
    pub region: Option<String>,
    pub endpoint: Option<String>,
    pub access_key_id: Option<String>,
    pub secret_sealed: Option<String>,
    pub restic_password_sealed: Option<String>,
}

/// Where in a bucket new destinations keep their data.
pub const REPO_PREFIX: &'static str = "wp";

/// A text that was filled in.
pub open spec fn filled(s: Seq<char>) -> Option<Seq<char>> {
    if s.len() == 0 {
        None
    } else {
        Some(s)
    }
}

/// Executable form of [`filled`].
fn fill(s: String) -> (r: Option<String>)
    ensures
        text::text_opt(r) == filled(s@),
{
    if s.as_str().is_empty() {
        None
    } else {
        Some(s)
    }
}

/// A secret as it is stored: sealed, or left out where it is empty.
pub open spec fn keeps(key: Seq<u8>, secret: Seq<char>, stored: Option<String>) -> bool {
    match stored {
        None => secret.len() == 0,
        Some(s) => secret.len() > 0 && secrets::holds(key, crypto::base64_read(s@), secret)
            && secrets::opened(key, crypto::base64_read(s@)) == Ok::<Seq<char>, ErrorView>(secret),
    }
}

/// The cipher takes a secret.
pub open spec fn fits(secret: Seq<char>) -> bool {
    utf8::encode_utf8(secret).len() <= crypto::MAX_PLAIN
}

/// Seals a secret for storing.
fn seal_secret(secret: &str, key: &SecretBox) -> (r: Result<Option<String>, Error>)
    ensures
        match r {
            Ok(stored) => fits(secret@) && keeps(key.spec_key(), secret@, stored),
            Err(e) => !fits(secret@) && secrets::not_sealed(key.spec_key(), secret@, e@),
        },
{
    if secret.is_empty() {
        proof {
            text::lemma_byte_len(secret@);
        }
        return Ok(None);
    }
    match key.seal(secret) {
        Ok(s) => Ok(Some(s)),
        Err(e) => Err(e),
    }
}

/// What is stored of a form: its secrets are sealed, and what was not filled in is left
/// out. Fails where a secret is longer than the cipher takes.
pub fn seal_form(form: DestinationForm, key: &SecretBox) -> (r: Result<SealedForm, Error>)
    ensures
        match r {
            Ok(s) => fits(form.secret@) && fits(form.restic_password@) && s.name == form.name
                && s.provider == form.provider && s.bucket == form.bucket && text::text_opt(
                s.region,
            ) == filled(form.region@) && text::text_opt(s.endpoint) == filled(form.endpoint@)
                && text::text_opt(s.access_key_id) == filled(form.access_key_id@) && keeps(key.spec_key(), form.secret@, s.secret_sealed) && keeps(
                key.spec_key(),
                form.restic_password@,
                s.restic_password_sealed,
            ),
            Err(e) => if !fits(form.secret@) {
                secrets::not_sealed(key.spec_key(), form.secret@, e@)
            } else {
                !fits(form.restic_password@) && secrets::not_sealed(
                    key.spec_key(),
                    form.restic_password@,
                    e@,
                )
            },
        },
{
    let secret_sealed = match seal_secret(form.secret.as_str(), key) {
        Ok(s) => s,
        Err(e) => return Err(e),
    };
    let restic_password_sealed = match seal_secret(form.restic_password.as_str(), key) {
        Ok(s) => s,
        Err(e) => return Err(e),
    };
    Ok(
        SealedForm {
            name: form.name,
            provider: form.provider,
            bucket: form.bucket,
            region: fill(form.region),
            endpoint: fill(form.endpoint),
            access_key_id: fill(form.access_key_id),
            secret_sealed,
            restic_password_sealed,
        },
    )
}

// ---------------------------------------------------------------------------
// Credentials
// ---------------------------------------------------------------------------

/// A stored secret, opened; empty where there is none.
pub open spec fn opened_or_empty(key: Seq<u8>, sealed: Option<Seq<char>>) -> Result<
    Seq<char>,
    ErrorView,
> {
    match sealed {
        None => Ok(Seq::empty()),
        Some(s) => secrets::opened(key, crypto::base64_read(s)),
    }
}

/// The credentials of a destination, or the first error in opening them.
pub open spec fn credentials_of(dest: Destination, key: Seq<u8>) -> Result<
    CredentialsView,
    ErrorView,
> {
    match opened_or_empty(key, text::text_opt(dest.secret_sealed)) {
        Err(e) => Err(e),
        Ok(secret) => match opened_or_empty(key, text::text_opt(dest.restic_password_sealed)) {
            Err(e) => Err(e),
            Ok(restic_password) => Ok(
                CredentialsView {
                    access_key_id: json::text_or(text::text_opt(dest.access_key_id), Seq::empty()),
                    secret,
                    restic_password,
                },
            ),
        },
    }
}

/// Executable form of [`opened_or_empty`].
fn open_secret(sealed: &Option<String>, key: &SecretBox) -> (r: Result<String, Error>)
    ensures
        secrets::text_view(r) == opened_or_empty(key.spec_key(), text::text_opt(*sealed)),
{
    match sealed {
        None => {
            let s = String::new();
            assert(s@ =~= Seq::empty());
            Ok(s)
        },
        Some(s) => key.open(s.as_str()),
    }
}

/// Decrypts destination credentials for passing to an agent operation.
pub fn decrypt_credentials(dest: &Destination, key: &SecretBox) -> (r: Result<
    DestinationCredentials,
    Error,
>)
    ensures
        match r {
            Ok(c) => credentials_of(*dest, key.spec_key()) == Ok::<CredentialsView, ErrorView>(c@),
            Err(e) => credentials_of(*dest, key.spec_key()) == Err::<CredentialsView, ErrorView>(
                e@,
            ),
        },
{
    let secret = match open_secret(&dest.secret_sealed, key) {
        Ok(s) => s,
        Err(e) => return Err(e),
    };
    let restic_password = match open_secret(&dest.restic_password_sealed, key) {
        Ok(s) => s,
        Err(e) => return Err(e),
    };
    let access_key_id = match &dest.access_key_id {
        Some(s) => s.clone(),
        None => {
            let s = String::new();
            assert(s@ =~= Seq::empty());
            s
        },
    };
    Ok(DestinationCredentials { access_key_id, secret, restic_password })
}

/// The credentials that a form is stored with are those that were filled in.
pub proof fn law_stored_credentials_are_read_back(
    dest: Destination,
    key: Seq<u8>,
    secret: Seq<char>,
    restic_password: Seq<char>,
)
    requires
        keeps(key, secret, dest.secret_sealed),
        keeps(key, restic_password, dest.restic_password_sealed),
    ensures
        credentials_of(dest, key) == Ok::<CredentialsView, ErrorView>(
            CredentialsView {
                access_key_id: json::text_or(text::text_opt(dest.access_key_id), Seq::empty()),
                secret,
                restic_password,
            },
        ),
{
    if secret.len() == 0 {
        assert(secret =~= Seq::empty());
    }
    if restic_password.len() == 0 {
        assert(restic_password =~= Seq::empty());
    }
}

// ---------------------------------------------------------------------------
// Targets
// ---------------------------------------------------------------------------

/// A text without any number of copies of another one at its start.
pub open spec fn without_start(s: Seq<char>, pat: Seq<char>) -> Seq<char>
    decreases s.len(),
{
    if pat.len() > 0 && text::starts_with(s, pat) {
        without_start(s.skip(pat.len() as int), pat)
    } else {
        s
    }
}

/// A text that is there and not empty.
pub open spec fn given(o: Option<Seq<char>>) -> Option<Seq<char>> {
    match o {
        Some(s) => filled(s),
        None => None,
    }
}

/// The host of a destination: its endpoint without scheme and closing slashes, or that
/// of Amazon in its region.
pub open spec fn host_of(endpoint: Option<Seq<char>>, region: Option<Seq<char>>) -> Seq<char> {
    match given(endpoint) {
        Some(e) => text::trim_end(
            without_start(without_start(e, "https://"@), "http://"@),
            text::Class::Is('/'),
        ),
        None => match given(region) {
            Some(r) => "s3."@ + r + ".amazonaws.com"@,
            None => "s3.amazonaws.com"@,
        },
    }
}

/// The repository in a bucket, below a prefix where there is one.
pub open spec fn repo_of(host: Seq<char>, bucket: Seq<char>, prefix: Seq<char>) -> Seq<char> {
    let p = text::trim(prefix, text::Class::Is('/'));
    if p.len() == 0 {
        "s3:"@ + host + "/"@ + bucket
    } else {
        "s3:"@ + host + "/"@ + bucket + "/"@ + p
    }
}

/// The environment that restic reaches a bucket with.
pub open spec fn env_of(c: CredentialsView, region: Option<Seq<char>>) -> Seq<
    (Seq<char>, Seq<char>),
> {
    let keys = seq![
        ("AWS_ACCESS_KEY_ID"@, c.access_key_id),
        ("AWS_SECRET_ACCESS_KEY"@, c.secret),
    ];
    match given(region) {
        Some(r) => keys.push(("AWS_DEFAULT_REGION"@, r)),
        None => keys,
    }
}

/// How restic reaches a destination with the given credentials.
pub open spec fn reached_with(dest: Destination, c: CredentialsView) -> ResticTargetView {
    ResticTargetView {
        repo: repo_of(
            host_of(text::text_opt(dest.endpoint), text::text_opt(dest.region)),
            dest.bucket@,
            dest.repo_prefix@,
        ),
        password: c.restic_password,
        env: env_of(c, text::text_opt(dest.region)),
    }
}

/// What the agent needs for a destination with the given credentials; without a
/// repository password there is nothing that it could use.
pub open spec fn target_with(dest: Destination, c: CredentialsView) -> Result<
    ResticTargetView,
    ErrorView,
> {
    if c.restic_password.len() == 0 {
        Err(
            ErrorView::Invalid(
                "destination `"@ + dest.name@ + "` has no repository password"@,
            ),
        )
    } else {
        Ok(reached_with(dest, c))
    }
}

/// What the agent needs for a destination, or why there is nothing.
pub open spec fn target_of(dest: Destination, key: Seq<u8>) -> Result<ResticTargetView, ErrorView> {
    match credentials_of(dest, key) {
        Err(e) => Err(e),
        Ok(c) => target_with(dest, c),
    }
}

/// The view of a target or of what stands in its way.
pub open spec fn target_view(r: Result<ResticTarget, Error>) -> Result<
    ResticTargetView,
    ErrorView,
> {
    match r {
        Ok(t) => Ok(t@),
        Err(e) => Err(e@),
    }
}

/// Executable form of [`without_start`].
fn strip_start(s: &[char], pat: &str) -> (r: Vec<char>)
    ensures
        r@ == without_start(s@, pat@),
{
    let p = text::chars_of(pat);
    let mut from: usize = 0;
    assert(s@.skip(0) =~= s@);
    if p.len() > 0 {
        while text::at(s, p.as_slice(), from)
            invariant
                p@ == pat@,
                p@.len() > 0,
                from <= s@.len(),
                without_start(s@, pat@) == without_start(s@.skip(from as int), pat@),
            decreases s@.len() - from,
        {
            let ghost rest = s@.skip(from as int);
            assert(rest.subrange(0, p@.len() as int) =~= s@.subrange(
                from as int,
                from + p@.len(),
            ));
            assert(rest.skip(p@.len() as int) =~= s@.skip(from + p@.len()));
            let n = s.len();
            assert(from + p@.len() <= n);
            from = from + p.len();
        }
        proof {
            let rest = s@.skip(from as int);
            if text::starts_with(rest, pat@) {
                assert(rest.subrange(0, p@.len() as int) =~= s@.subrange(
                    from as int,
                    from + p@.len(),
                ));
            }
        }
    }
    let mut v: Vec<char> = Vec::new();
    let mut i: usize = from;
    while i < s.len()
        invariant
            from <= i <= s@.len(),
            v@ =~= s@.subrange(from as int, i as int),
        decreases s@.len() - i,
    {
        v.push(s[i]);
        i += 1;
    }
    assert(v@ =~= s@.skip(from as int));
    v
}

/// Executable form of [`host_of`].
fn host(endpoint: &Option<String>, region: &Option<String>) -> (s: String)
    ensures
        s@ == host_of(text::text_opt(*endpoint), text::text_opt(*region)),
{
    if let Some(e) = endpoint {
        if !e.as_str().is_empty() {
            let cs = text::chars_of(e.as_str());
            let a = strip_start(cs.as_slice(), "https://");
            let b = strip_start(a.as_slice(), "http://");
            return text::string_of(text::trimmed_end(b.as_slice(), text::Class::Is('/')));
        }
    }
    if let Some(r) = region {
        if !r.as_str().is_empty() {
            return text::cat3("s3.", r.as_str(), ".amazonaws.com");
        }
    }
    "s3.amazonaws.com".to_owned()
}

/// Executable form of [`repo_of`].
fn repo(host: &str, bucket: &str, prefix: &str) -> (s: String)
    ensures
        s@ == repo_of(host@, bucket@, prefix@),
{
    let cs = text::chars_of(prefix);
    let p = text::trimmed(cs.as_slice(), text::Class::Is('/'));
    let mut s = text::cat4("s3:", host, "/", bucket);
    if p.len() > 0 {
        let shown = text::string_of(p);
        s.append("/");
        s.append(shown.as_str());
    }
    s
}

/// Executable form of [`reached_with`].
pub fn reach(dest: &Destination, c: DestinationCredentials) -> (t: ResticTarget)
    ensures
        t@ == reached_with(*dest, c@),
{
    let h = host(&dest.endpoint, &dest.region);
    let url = repo(h.as_str(), dest.bucket.as_str(), dest.repo_prefix.as_str());
    let ghost view = c@;
    let mut env: Vec<(String, String)> = Vec::new();
    env.push(("AWS_ACCESS_KEY_ID".to_owned(), c.access_key_id));
    env.push(("AWS_SECRET_ACCESS_KEY".to_owned(), c.secret));
    if let Some(region) = &dest.region {
        if !region.as_str().is_empty() {
            env.push(("AWS_DEFAULT_REGION".to_owned(), region.clone()));
        }
    }
    assert(protocol::pairs(env@) =~= env_of(view, text::text_opt(dest.region)));
    ResticTarget { repo: url, password: c.restic_password, env }
}

/// What the agent needs for a destination with the given credentials.
pub fn target_from(dest: &Destination, c: DestinationCredentials) -> (r: Result<ResticTarget, Error>)
    ensures
        target_view(r) == target_with(*dest, c@),
{
    if c.restic_password.as_str().is_empty() {
        return Err(
            Error::Invalid(
                text::cat3("destination `", dest.name.as_str(), "` has no repository password"),
            ),
        );
    }
    Ok(reach(dest, c))
}

/// Builds the [`ResticTarget`] the agent needs for one destination.
///
/// Single source of truth for repository URL, password and S3 credentials.
///
/// Snapshots of every site live in one repository, separated by restic tags
/// (`site=<domain>`), so deduplication works across sites. `repo_prefix` keeps
/// the panel's data in its own path inside the bucket.
pub fn restic_target(dest: &Destination, key: &SecretBox) -> (r: Result<ResticTarget, Error>)
    ensures
        target_view(r) == target_of(*dest, key.spec_key()),
{
    match decrypt_credentials(dest, key) {
        Ok(c) => target_from(dest, c),
        Err(e) => Err(e),
    }
}

/// Which destination a site backs up to.
#[derive(Debug, Clone, Copy, PartialEq, Eq, Structural)]
pub enum Pick {
    /// The one with this id.
    ById(i64),
    /// The only one there is.
    Only,
    /// None.
    Nothing,
}

/// Resolves the destination a site backs up to: its schedule's destination, or the only
/// destination configured, otherwise none.
pub fn pick(scheduled: Option<i64>, configured: usize) -> (p: Pick)
    ensures
        p == match scheduled {
            Some(id) => Pick::ById(id),
            None => if configured == 1 {
                Pick::Only
            } else {
                Pick::Nothing
            },
        },
{
    match scheduled {
        Some(id) => Pick::ById(id),
        None => if configured == 1 {
            Pick::Only
        } else {
            Pick::Nothing
        },
    }
}

} // verus!
