//! TLS certificates of the agent.
//!
//! On first start a self-signed certificate is generated and persisted next to
//! the state file so the fingerprint is stable across restarts.

use vstd::prelude::*;
use crate::agent::path;
use crate::crypto;
use crate::text;

verus! {

/// Result of loading or generating a TLS certificate.
#[derive(Debug)]
pub struct TlsBundle {
    /// PEM-encoded certificate chain.
    pub cert_pem: Vec<u8>,
    /// PEM-encoded private key.
    pub key_pem: Vec<u8>,
    /// Human-readable SHA-256 fingerprint of the leaf certificate,
    /// e.g. `"sha256:AB:CD:..."`.
    pub fingerprint: String,
}

/// Why there is no certificate.
#[derive(Debug)]
pub enum TlsError {
    /// The PEM data could not be read, for this reason.
    Parse(String),
    /// The PEM data hold no certificate.
    Empty,
    /// No certificate could be made, for this reason.
    Generate(String),
}

/// Which step of making a certificate failed, and why.
#[derive(Debug)]
pub enum SignFault {
    /// The request was not taken.
    Request(String),
    /// No key pair could be had.
    Key(String),
    /// The certificate could not be signed.
    Sign(String),
}

impl SignFault {
    /// The fault as it is shown.
    pub open spec fn spec_message(self) -> Seq<char> {
        match self {
            SignFault::Request(e) => "creating certificate params: "@ + e@,
            SignFault::Key(e) => "generating key pair: "@ + e@,
            SignFault::Sign(e) => "self-signing certificate: "@ + e@,
        }
    }

    /// The fault as it is shown.
    pub fn message(&self) -> (s: String)
        ensures
            s@ == self.spec_message(),
    {
        match self {
            SignFault::Request(e) => text::cat2("creating certificate params: ", e.as_str()),
            SignFault::Key(e) => text::cat2("generating key pair: ", e.as_str()),
            SignFault::Sign(e) => text::cat2("self-signing certificate: ", e.as_str()),
        }
    }
}

impl TlsError {
    /// The error as it is shown.
    pub open spec fn spec_message(self) -> Seq<char> {
        match self {
            TlsError::Parse(reason) => "parsing PEM certificate: "@ + reason@,
            TlsError::Empty => "no certificate found in PEM data"@,
            TlsError::Generate(reason) => reason@,
        }
    }

    /// The error as it is shown.
    pub fn message(&self) -> (s: String)
        ensures
            s@ == self.spec_message(),
    {
        match self {
            TlsError::Parse(reason) => text::cat2("parsing PEM certificate: ", reason.as_str()),
            TlsError::Empty => "no certificate found in PEM data".to_owned(),
            TlsError::Generate(reason) => reason.clone(),
        }
    }
}

// ---------------------------------------------------------------------------
// Fingerprints
// ---------------------------------------------------------------------------

/// The hexadecimal digit `d`, 0 to 15, as a capital.
pub open spec fn hex_digit(d: int) -> char {
    if d < 10 {
        (48 + d) as char
    } else {
        (55 + d) as char
    }
}

/// A byte as two hexadecimal digits.
pub open spec fn hex(b: u8) -> Seq<char> {
    seq![hex_digit(b as int / 16), hex_digit(b as int % 16)]
}

/// Bytes as hexadecimal digits, with colons between them.
pub open spec fn colons(bytes: Seq<u8>) -> Seq<char>
    decreases bytes.len(),
{
    if bytes.len() == 0 {
        Seq::empty()
    } else if bytes.len() == 1 {
        hex(bytes[0])
    } else {
        colons(bytes.drop_last()) + seq![':'] + hex(bytes.last())
    }
}

/// The fingerprint of a certificate, given in its binary form.
pub open spec fn fingerprint_of(certificate: Seq<u8>) -> Seq<char> {
    "sha256:"@ + colons(crypto::sha256_of(certificate))
}

/// Executable form of [`hex_digit`].
fn hex_char(d: u8) -> (c: char)
    requires
        d < 16,
    ensures
        c == hex_digit(d as int),
{
    if d < 10 {
        (48 + d) as char
    } else {
        (55 + d) as char
    }
}

/// Executable form of [`colons`].
pub fn write_colons(bytes: &[u8]) -> (s: String)
    ensures
        s@ == colons(bytes@),
{
    let mut s = String::new();
    let mut i: usize = 0;
    assert(bytes@.take(0) =~= Seq::empty());
    assert(s@ =~= colons(bytes@.take(0)));
    while i < bytes.len()
        invariant
            i <= bytes@.len(),
            s@ == colons(bytes@.take(i as int)),
        decreases bytes@.len() - i,
    {
        let ghost front = bytes@.take(i as int);
        let ghost next = bytes@.take(i + 1);
        assert(next.drop_last() =~= front);
        let ghost before = s@;
        if i > 0 {
            s.push(':');
        }
        s.push(hex_char(bytes[i] / 16));
        s.push(hex_char(bytes[i] % 16));
        if i == 0 {
            assert(s@ =~= hex(bytes@[0]));
        } else {
            assert(s@ =~= before + seq![':'] + hex(bytes@[i as int]));
        }
        i += 1;
    }
    assert(bytes@.take(i as int) =~= bytes@);
    s
}

/// The fingerprint of a certificate, given in its binary form.
pub fn certificate_fingerprint(certificate: &[u8]) -> (s: String)
    ensures
        s@ == fingerprint_of(certificate@),
{
    let digest = crypto::sha256(certificate);
    let shown = write_colons(digest.as_slice());
    text::cat2("sha256:", shown.as_str())
}

/// The views of some certificates.
pub open spec fn raw(v: Seq<Vec<u8>>) -> Seq<Seq<u8>> {
    v.map_values(|c: Vec<u8>| c@)
}

/// The certificates in PEM data, in binary form, or what is wrong with the data.
pub uninterp spec fn pem_certificates(pem: Seq<u8>) -> Result<Seq<Seq<u8>>, Seq<char>>;

/// Calls `rustls_pemfile::certs` and collects what it finds: the certificates, or
/// the first thing that is wrong, depend on the data alone.
#[verifier::external_body]
fn read_certificates(pem: &[u8]) -> (r: Result<Vec<Vec<u8>>, String>)
    ensures
        match r {
            Ok(list) => pem_certificates(pem@) == Ok::<Seq<Seq<u8>>, Seq<char>>(raw(list@)),
            Err(e) => pem_certificates(pem@) == Err::<Seq<Seq<u8>>, Seq<char>>(e@),
        },
{
    let mut reader = std::io::BufReader::new(pem);
    rustls_pemfile::certs(&mut reader)
        .map(|c| c.map(|der| der.to_vec()).map_err(|e| e.to_string()))
        .collect()
}

/// What [`fingerprint_from_pem`] makes of what was found in the data.
pub open spec fn leaf_fingerprint(found: Result<Seq<Seq<u8>>, Seq<char>>, r: Result<String, TlsError>) -> bool {
    match found {
        Err(reason) => r matches Err(TlsError::Parse(e)) && e@ == reason,
        Ok(list) => if list.len() == 0 {
            r matches Err(e) && e is Empty
        } else {
            r matches Ok(s) && s@ == fingerprint_of(list[0])
        },
    }
}

/// The fingerprint of the first of some certificates.
pub fn first_fingerprint(found: Result<Vec<Vec<u8>>, String>) -> (r: Result<String, TlsError>)
    ensures
        match found {
            Err(reason) => r matches Err(TlsError::Parse(e)) && e@ == reason@,
            Ok(list) => if list@.len() == 0 {
                r matches Err(e) && e is Empty
            } else {
                r matches Ok(s) && s@ == fingerprint_of(list@[0]@)
            },
        },
{
    match found {
        Err(reason) => Err(TlsError::Parse(reason)),
        Ok(list) => if list.len() == 0 {
            Err(TlsError::Empty)
        } else {
            Ok(certificate_fingerprint(list[0].as_slice()))
        },
    }
}

/// Computes the SHA-256 fingerprint of the first certificate in a PEM bundle.
pub fn fingerprint_from_pem(pem: &[u8]) -> (r: Result<String, TlsError>)
    ensures
        leaf_fingerprint(pem_certificates(pem@), r),
{
    let found = read_certificates(pem);
    first_fingerprint(found)
}

// ---------------------------------------------------------------------------
// Where a certificate comes from
// ---------------------------------------------------------------------------

/// Where the certificate of the agent comes from.
#[derive(Debug)]
pub enum CertificateSource {
    /// It is read from these files.
    Read { cert: String, key: String },
    /// It is made, and kept in these files.
    Make { cert: String, key: String },
}

/// Both files of a kept certificate are there, under these paths.
pub open spec fn kept_cert(state_dir: Seq<char>) -> Seq<char> {
    path::join(state_dir, "agent.crt"@)
}

pub open spec fn kept_key(state_dir: Seq<char>) -> Seq<char> {
    path::join(state_dir, "agent.key"@)
}

/// Where the certificate comes from: from the files that are configured where both
/// are; else from the kept ones where they are there and no certificate is
/// configured; else it is made.
pub fn choose_source(
    cert_path: &Option<String>,
    key_path: &Option<String>,
    state_dir: &str,
    kept: bool,
) -> (s: CertificateSource)
    ensures
        match (*cert_path, *key_path) {
            (Some(c), Some(k)) => s matches CertificateSource::Read { cert, key } && cert@ == c@
                && key@ == k@,
            _ => if kept && *cert_path is None {
                s matches CertificateSource::Read { cert, key } && cert@ == kept_cert(state_dir@)
                    && key@ == kept_key(state_dir@)
            } else {
                s matches CertificateSource::Make { cert, key } && cert@ == kept_cert(state_dir@)
                    && key@ == kept_key(state_dir@)
            },
        },
{
    if let (Some(cert), Some(key)) = (cert_path, key_path) {
        return CertificateSource::Read { cert: cert.clone(), key: key.clone() };
    }
    let cert = path::joined(state_dir, "agent.crt");
    let key = path::joined(state_dir, "agent.key");
    if kept && cert_path.is_none() {
        CertificateSource::Read { cert, key }
    } else {
        CertificateSource::Make { cert, key }
    }
}

/// The certificate, its key and its fingerprint.
pub fn bundle(cert_pem: Vec<u8>, key_pem: Vec<u8>) -> (r: Result<TlsBundle, TlsError>)
    ensures
        match r {
            Ok(b) => b.cert_pem == cert_pem && b.key_pem == key_pem && leaf_fingerprint(
                pem_certificates(cert_pem@),
                Ok(b.fingerprint),
            ),
            Err(e) => leaf_fingerprint(pem_certificates(cert_pem@), Err(e)),
        },
{
    match fingerprint_from_pem(cert_pem.as_slice()) {
        Ok(fingerprint) => Ok(TlsBundle { cert_pem, key_pem, fingerprint }),
        Err(e) => Err(e),
    }
}

/// The data holds one certificate.
pub open spec fn holds_one(pem: Seq<u8>) -> bool {
    pem_certificates(pem) matches Ok(list) && list.len() == 1
}

/// What a certificate is asked for.
#[derive(Debug)]
pub struct CertificateRequest {
    /// The names and addresses that it is valid for.
    pub names: Vec<String>,
    /// The name of its subject.
    pub common_name: String,
}

/// [`CertificateRequest`] with its texts as sequences of characters.
pub struct RequestView {
    pub names: Seq<Seq<char>>,
    pub common_name: Seq<char>,
}

impl View for CertificateRequest {
    type V = RequestView;

    open spec fn view(&self) -> RequestView {
        RequestView { names: text::texts(self.names@), common_name: self.common_name@ }
    }
}

/// The request for the certificate of a node: valid for its host name and its address,
/// with the host name as the subject.
pub open spec fn request_for(hostname: Seq<char>, ip: Seq<char>) -> RequestView {
    RequestView { names: seq![hostname, ip], common_name: hostname }
}

/// Executable form of [`request_for`].
pub fn certificate_request(hostname: &str, ip: &str) -> (q: CertificateRequest)
    ensures
        q@ == request_for(hostname@, ip@),
        text::texts(q.names@) == seq![hostname@, ip@],
        q.common_name@ == hostname@,
{
    CertificateRequest { names: text::list2(hostname, ip), common_name: hostname.to_owned() }
}

/// What is wrong with the names of a request and its subject, where `rcgen` does not take
/// them as the parameters of a certificate.
pub uninterp spec fn request_fault(names: Seq<Seq<char>>, common_name: Seq<char>) -> Option<
    Seq<char>,
>;

/// What `rcgen` may make of a request: the fault in it, or the certificate and its key,
/// both as PEM, unless the key or the signature fails. Which certificate and key they
/// are is left to chance.
pub open spec fn answers(
    fault: Option<Seq<char>>,
    request: RequestView,
    r: Result<(Vec<u8>, Vec<u8>), SignFault>,
) -> bool {
    match fault {
        Some(reason) => r matches Err(SignFault::Request(e)) && e@ == reason,
        None => match r {
            Ok(made) => holds_one(made.0@) && forall|i: int|
                0 <= i < request.names.len() ==> text::is_ascii(#[trigger] request.names[i]),
            Err(e) => !(e is Request),
        },
    }
}

/// Calls `rcgen`: a certificate for the names of a request, signed with a key pair of its
/// own, and the key. Whether the request is taken, and what is said otherwise, depends on
/// the request alone and is named [`request_fault`]; of what follows, the error says which
/// step failed. There is one certificate in the data, and it takes names in ASCII. The
/// key is left to chance, and with it the certificate: that it carries the names of the
/// request, and that a key pair can be had, is not stated.
#[verifier::external_body]
fn self_sign(request: CertificateRequest) -> (r: Result<(Vec<u8>, Vec<u8>), SignFault>)
    ensures
        answers(request_fault(request@.names, request@.common_name), request@, r),
{
    let mut params = rcgen::CertificateParams::new(request.names)
        .map_err(|e| SignFault::Request(e.to_string()))?;
    params.distinguished_name.push(rcgen::DnType::CommonName, request.common_name);
    let pair = rcgen::KeyPair::generate().map_err(|e| SignFault::Key(e.to_string()))?;
    let cert = params.self_signed(&pair).map_err(|e| SignFault::Sign(e.to_string()))?;
    Ok((cert.pem().into_bytes(), pair.serialize_pem().into_bytes()))
}

/// What becomes of a signed certificate and its key, or of what was wrong.
pub open spec fn delivered(
    made: Result<(Vec<u8>, Vec<u8>), SignFault>,
    r: Result<TlsBundle, TlsError>,
) -> bool {
    match made {
        Ok((cert_pem, key_pem)) => match r {
            Ok(b) => b.cert_pem == cert_pem && b.key_pem == key_pem && leaf_fingerprint(
                pem_certificates(cert_pem@),
                Ok(b.fingerprint),
            ),
            Err(e) => leaf_fingerprint(pem_certificates(cert_pem@), Err(e)),
        },
        Err(fault) => r matches Err(TlsError::Generate(e)) && e@ == fault.spec_message(),
    }
}

/// Executable form of [`delivered`].
pub fn deliver(made: Result<(Vec<u8>, Vec<u8>), SignFault>) -> (r: Result<TlsBundle, TlsError>)
    ensures
        delivered(made, r),
{
    match made {
        Ok((cert_pem, key_pem)) => bundle(cert_pem, key_pem),
        Err(fault) => Err(TlsError::Generate(fault.message())),
    }
}

/// Generates a self-signed certificate for the given hostname and IP.
pub fn generate_self_signed(hostname: &str, ip: &str) -> (r: Result<TlsBundle, TlsError>)
    ensures
        exists|made: Result<(Vec<u8>, Vec<u8>), SignFault>|
            answers(
                request_fault(seq![hostname@, ip@], hostname@),
                request_for(hostname@, ip@),
                made,
            ) && #[trigger] delivered(made, r),
        match r {
            Ok(b) => text::is_ascii(hostname@) && text::is_ascii(ip@) && holds_one(b.cert_pem@)
                && leaf_fingerprint(pem_certificates(b.cert_pem@), Ok(b.fingerprint)),
            Err(e) => e is Generate,
        },
{
    let request = certificate_request(hostname, ip);
    let made = self_sign(request);
    proof {
        let names = request_for(hostname@, ip@).names;
        assert(names[0] == hostname@ && names[1] == ip@);
    }
    deliver(made)
}

} // verus!
