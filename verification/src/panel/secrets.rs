//! AES-256-GCM encryption for destination credentials.
//!
//! The key is loaded from `WP_PANEL_SECRET_KEY` (base64, 32 bytes). If the
//! variable is missing at boot, a random key is generated and persisted to
//! `<db_dir>/secret.key` with mode 0600.

use vstd::prelude::*;
use vstd::slice::slice_subrange;
use vstd::utf8;
use crate::common::error::{Error, ErrorView};
use crate::crypto;
use crate::text;

verus! {

/// The most bytes that a sealed text stands for: the nonce, the longest plain text and
/// the tag.
pub const LONGEST: u64 = 0x10_0000_001C;

/// Seals and opens texts under a key.
pub struct SecretBox {
    key: [u8; 32],
}

/// Where a key was read.
#[derive(Debug, Clone, Copy, PartialEq, Eq, Structural)]
pub enum KeySource {
    /// The variable `WP_PANEL_SECRET_KEY`.
    Variable,
    /// The file `secret.key`.
    File,
}

/// The key in a text, or what is wrong with the text.
pub open spec fn key_in(source: KeySource, read: Result<Seq<u8>, Seq<char>>) -> Result<
    Seq<u8>,
    ErrorView,
> {
    match read {
        Err(reason) => Err(
            ErrorView::Invalid(
                match source {
                    KeySource::Variable => "invalid WP_PANEL_SECRET_KEY: "@ + reason,
                    KeySource::File => "invalid secret.key: "@ + reason,
                },
            ),
        ),
        Ok(bytes) => if bytes.len() != 32 {
            Err(
                ErrorView::Invalid(
                    match source {
                        KeySource::Variable => "WP_PANEL_SECRET_KEY must be 32 bytes (base64)"@,
                        KeySource::File => "secret.key must be 32 bytes"@,
                    },
                ),
            )
        } else {
            Ok(bytes)
        },
    }
}

/// How a text is read: the contents of the file without white space at their ends.
pub open spec fn key_text(source: KeySource, s: Seq<char>) -> Seq<char> {
    match source {
        KeySource::Variable => s,
        KeySource::File => text::trim(s, text::Class::White),
    }
}

/// What [`SecretBox::open`] makes of the cipher text that it was handed.
pub open spec fn plain_in(opened: Result<Seq<u8>, Seq<char>>) -> Result<Seq<char>, ErrorView> {
    match opened {
        Err(reason) => Err(ErrorView::Invalid("decryption failed: "@ + reason)),
        Ok(plain) => if utf8::valid_utf8(plain) {
            Ok(utf8::decode_utf8(plain))
        } else {
            Err(ErrorView::Invalid("invalid UTF-8: "@ + crypto::utf8_fault(plain)))
        },
    }
}

/// What a sealed text opens to under a key: it holds twelve bytes of nonce, then the
/// cipher text.
pub open spec fn opened(key: Seq<u8>, read: Result<Seq<u8>, Seq<char>>) -> Result<
    Seq<char>,
    ErrorView,
> {
    match read {
        Err(reason) => Err(ErrorView::Invalid("invalid sealed data: "@ + reason)),
        Ok(combined) => if combined.len() < 12 {
            Err(ErrorView::Invalid("sealed data too short"@))
        } else {
            plain_in(crypto::aes_opened(key, combined.take(12), combined.skip(12)))
        },
    }
}

/// What was read from a sealed text holds a plain text under a key: twelve bytes of
/// nonce, then what the plain text is encrypted to.
pub open spec fn holds(key: Seq<u8>, read: Result<Seq<u8>, Seq<char>>, plain: Seq<char>) -> bool {
    match read {
        Ok(combined) => 12 <= combined.len() <= LONGEST && crypto::aes_sealed(
            key,
            combined.take(12),
            utf8::encode_utf8(plain),
        ) == Ok::<Seq<u8>, Seq<char>>(combined.skip(12)),
        Err(_) => false,
    }
}

/// What opening comes to: [`opened`], which is a plain text only where the sealed text
/// holds it.
pub open spec fn opens_as(
    key: Seq<u8>,
    read: Result<Seq<u8>, Seq<char>>,
    r: Result<Seq<char>, ErrorView>,
) -> bool {
    &&& r == opened(key, read)
    &&& r matches Ok(plain) ==> ((read->Ok_0).len() <= LONGEST ==> holds(key, read, plain))
}

/// A sealed text opens under its key to what went in. Under another key it is refused,
/// unless it happens to hold a text under that one too.
pub proof fn law_only_its_key_opens(
    a: Seq<u8>,
    b: Seq<u8>,
    read: Result<Seq<u8>, Seq<char>>,
    plain: Seq<char>,
    mine: Result<Seq<char>, ErrorView>,
    other: Result<Seq<char>, ErrorView>,
)
    requires
        holds(a, read, plain),
        opened(a, read) == Ok::<Seq<char>, ErrorView>(plain),
        opens_as(a, read, mine),
        opens_as(b, read, other),
        forall|q: Seq<char>| !#[trigger] holds(b, read, q),
    ensures
        mine == Ok::<Seq<char>, ErrorView>(plain),
        other matches Err(ErrorView::Invalid(_)),
{
}

/// A text that is no base64, or stands for less than twelve bytes, is refused under every
/// key.
pub proof fn law_malformed_texts_are_refused(
    key: Seq<u8>,
    read: Result<Seq<u8>, Seq<char>>,
    r: Result<Seq<char>, ErrorView>,
)
    requires
        read matches Ok(combined) ==> combined.len() < 12,
        opens_as(key, read, r),
    ensures
        r matches Err(ErrorView::Invalid(_)),
{
}

/// The cipher did not take the plain text, and the error says why.
pub open spec fn refused(sealed: Result<Seq<u8>, Seq<char>>, e: ErrorView) -> bool {
    match sealed {
        Ok(_) => false,
        Err(reason) => e == ErrorView::Internal(reason),
    }
}

/// The cipher did not take the plain text under some nonce, and the error says why.
pub open spec fn not_sealed(key: Seq<u8>, plain: Seq<char>, e: ErrorView) -> bool {
    exists|nonce: Seq<u8>|
        nonce.len() == 12 && refused(
            #[trigger] crypto::aes_sealed(key, nonce, utf8::encode_utf8(plain)),
            e,
        )
}

/// The view of what came of reading bytes.
pub open spec fn bytes_view(r: Result<Vec<u8>, String>) -> Result<Seq<u8>, Seq<char>> {
    match r {
        Ok(b) => Ok(b@),
        Err(e) => Err(e@),
    }
}

/// The view of what came of opening a text.
pub open spec fn text_view(r: Result<String, Error>) -> Result<Seq<char>, ErrorView> {
    match r {
        Ok(s) => Ok(s@),
        Err(e) => Err(e@),
    }
}

impl SecretBox {
    /// The key.
    pub closed spec fn spec_key(self) -> Seq<u8> {
        self.key@
    }

    /// A box with a given key.
    pub fn from_key(key: [u8; 32]) -> (b: Self)
        ensures
            b.spec_key() == key@,
    {
        SecretBox { key }
    }

    /// A box with a random key, and the text under which the key is kept.
    pub fn generate() -> (r: (Self, String))
        ensures
            r.1@ == crypto::base64_of(r.0.spec_key()),
            key_in(KeySource::Variable, crypto::base64_read(r.1@)) == Ok::<Seq<u8>, ErrorView>(
                r.0.spec_key(),
            ),
    {
        let key = crypto::random_key();
        let shown = crypto::base64(key.as_slice());
        (SecretBox { key }, shown)
    }

    /// The box with the key among some bytes, or what is wrong with them.
    pub fn from_bytes(source: KeySource, read: Result<Vec<u8>, String>) -> (r: Result<Self, Error>)
        ensures
            match r {
                Ok(b) => key_in(source, bytes_view(read)) == Ok::<Seq<u8>, ErrorView>(
                    b.spec_key(),
                ),
                Err(e) => key_in(source, bytes_view(read)) == Err::<Seq<u8>, ErrorView>(e@),
            },
    {
        match read {
            Err(reason) => Err(
                Error::Invalid(
                    match source {
                        KeySource::Variable => text::cat2(
                            "invalid WP_PANEL_SECRET_KEY: ",
                            reason.as_str(),
                        ),
                        KeySource::File => text::cat2("invalid secret.key: ", reason.as_str()),
                    },
                ),
            ),
            Ok(bytes) => match crypto::key_of(bytes.as_slice()) {
                Some(key) => Ok(SecretBox { key }),
                None => Err(
                    Error::invalid(
                        match source {
                            KeySource::Variable => "WP_PANEL_SECRET_KEY must be 32 bytes (base64)",
                            KeySource::File => "secret.key must be 32 bytes",
                        },
                    ),
                ),
            },
        }
    }

    /// The box with the key that a text holds in base64.
    pub fn load(source: KeySource, shown: &str) -> (r: Result<Self, Error>)
        ensures
            match r {
                Ok(b) => key_in(source, crypto::base64_read(key_text(source, shown@))) == Ok::<
                    Seq<u8>,
                    ErrorView,
                >(b.spec_key()),
                Err(e) => key_in(source, crypto::base64_read(key_text(source, shown@))) == Err::<
                    Seq<u8>,
                    ErrorView,
                >(e@),
            },
    {
        let trimmed = match source {
            KeySource::Variable => shown.to_owned(),
            KeySource::File => text::trimmed_text(shown),
        };
        let read = crypto::base64_bytes(trimmed.as_str());
        SecretBox::from_bytes(source, read)
    }

    /// Encrypts plaintext. Returns base64(nonce || ciphertext).
    pub fn seal(&self, plaintext: &str) -> (r: Result<String, Error>)
        ensures
            match r {
                Ok(sealed) => exists|nonce: Seq<u8>, cipher: Seq<u8>|
                    nonce.len() == 12 && crypto::aes_sealed(
                        self.spec_key(),
                        nonce,
                        utf8::encode_utf8(plaintext@),
                    ) == Ok::<Seq<u8>, Seq<char>>(cipher) && sealed@ == crypto::base64_of(
                        #[trigger] (nonce + cipher),
                    ),
                Err(e) => not_sealed(self.spec_key(), plaintext@, e@),
            },
            r is Ok <==> utf8::encode_utf8(plaintext@).len() <= crypto::MAX_PLAIN,
            r matches Ok(sealed) ==> holds(
                self.spec_key(),
                crypto::base64_read(sealed@),
                plaintext@,
            ),
            // What was sealed opens to what went in.
            r matches Ok(sealed) ==> opened(self.spec_key(), crypto::base64_read(sealed@)) == Ok::<
                Seq<char>,
                ErrorView,
            >(plaintext@),
    {
        let nonce = crypto::random_bytes(12);
        let cipher = match crypto::aes_seal(&self.key, nonce.as_slice(), plaintext.as_bytes()) {
            Ok(cipher) => cipher,
            Err(reason) => {
                return Err(Error::Internal(reason));
            },
        };
        let ghost n = nonce@;
        let mut combined = nonce;
        let mut i: usize = 0;
        while i < cipher.len()
            invariant
                i <= cipher@.len(),
                combined@ =~= n + cipher@.take(i as int),
            decreases cipher@.len() - i,
        {
            combined.push(cipher[i]);
            i += 1;
        }
        assert(combined@ =~= n + cipher@);
        let sealed = crypto::base64(combined.as_slice());
        proof {
            assert((n + cipher@).take(12) =~= n);
            assert((n + cipher@).skip(12) =~= cipher@);
            utf8::encode_utf8_valid_utf8(plaintext@);
            utf8::encode_utf8_decode_utf8(plaintext@);
        }
        Ok(sealed)
    }

    /// Opens what was read from a sealed text.
    pub fn open_bytes(&self, read: Result<Vec<u8>, String>) -> (r: Result<String, Error>)
        ensures
            text_view(r) == opened(self.spec_key(), bytes_view(read)),
            opens_as(self.spec_key(), bytes_view(read), text_view(r)),
    {
        let combined = match read {
            Err(reason) => return Err(
                Error::Invalid(text::cat2("invalid sealed data: ", reason.as_str())),
            ),
            Ok(combined) => combined,
        };
        if combined.len() < 12 {
            return Err(Error::invalid("sealed data too short"));
        }
        let n = combined.len();
        let nonce = slice_subrange(combined.as_slice(), 0, 12);
        let cipher = slice_subrange(combined.as_slice(), 12, n);
        assert(nonce@ =~= combined@.take(12));
        assert(cipher@ =~= combined@.skip(12));
        let plain = match crypto::aes_open(&self.key, nonce, cipher) {
            Ok(plain) => plain,
            Err(reason) => return Err(
                Error::Invalid(text::cat2("decryption failed: ", reason.as_str())),
            ),
        };
        proof {
            if utf8::valid_utf8(plain@) {
                utf8::decode_utf8_encode_utf8(plain@);
            }
        }
        match crypto::text_of_utf8(plain) {
            Ok(s) => Ok(s),
            Err(reason) => Err(Error::Invalid(text::cat2("invalid UTF-8: ", reason.as_str()))),
        }
    }

    /// Decrypts base64(nonce || ciphertext) back to plaintext.
    pub fn open(&self, sealed: &str) -> (r: Result<String, Error>)
        ensures
            text_view(r) == opened(self.spec_key(), crypto::base64_read(sealed@)),
            opens_as(self.spec_key(), crypto::base64_read(sealed@), text_view(r)),
    {
        let read = crypto::base64_bytes(sealed);
        self.open_bytes(read)
    }
}

} // verus!
