use vstd::prelude::*;

use crate::chrome::v10_prefix;
use crate::errors::GetCookieError;
use crate::text::{string_from_utf8, utf8_decode_of};

verus! {

/// The parts of an authenticated envelope: the 3-byte signature has been
/// checked and stripped, leaving the single-use nonce and the ciphertext
/// (authentication tag included).
pub struct GcmEnvelope {
    /// The 12-byte nonce stored with the record.
    pub nonce: Vec<u8>,
    /// The authenticated ciphertext, trailing tag included.
    pub ciphertext: Vec<u8>,
}

/// How the authenticated path sorts envelopes out, before any key work:
/// shorter than 15 bytes (3-byte signature plus 12-byte nonce) is the wrong
/// shape; not opened by `"v10"` is the right shape with the wrong version
/// marker; anything else parses.
pub open spec fn gcm_envelope_error(cookie: Seq<u8>) -> Option<GetCookieError> {
    if cookie.len() < 15 {
        Some(GetCookieError::InvalidCookieFormat)
    } else if cookie.subrange(0, 3) != v10_prefix() {
        Some(GetCookieError::InvalidCookieFormatVersion)
    } else {
        None
    }
}

/// Split an authenticated envelope into signature, nonce and ciphertext,
/// rejecting exactly what `gcm_envelope_error` rejects. No key material is
/// touched here: a malformed envelope never costs a key derivation.
pub fn parse_gcm_envelope(cookie: &[u8]) -> (r: Result<GcmEnvelope, GetCookieError>)
    ensures
        r matches Err(e) ==> gcm_envelope_error(cookie@) == Some(e),
        r matches Ok(env) ==> gcm_envelope_error(cookie@) is None && env.nonce@ == cookie@
            .subrange(3, 15) && env.ciphertext@ == cookie@.skip(15),
{
    if cookie.len() < 15 {
        // At least 3 bytes of prefix and 12 bytes of nonce must be there.
        return Err(GetCookieError::InvalidCookieFormat);
    }
    if !(cookie[0] == 0x76 && cookie[1] == 0x31 && cookie[2] == 0x30) {
        proof {
            assert(cookie@.subrange(0, 3)[0] == cookie@[0]);
            assert(cookie@.subrange(0, 3)[1] == cookie@[1]);
            assert(cookie@.subrange(0, 3)[2] == cookie@[2]);
        }
        return Err(GetCookieError::InvalidCookieFormatVersion);
    }
    proof {
        assert(cookie@.subrange(0, 3) =~= v10_prefix());
    }
    let mut nonce: Vec<u8> = Vec::new();
    let mut i: usize = 3;
    while i < 15
        invariant
            3 <= i <= 15,
            cookie@.len() >= 15,
            nonce@ == cookie@.subrange(3, i as int),
        decreases 15 - i,
    {
        nonce.push(cookie[i]);
        i = i + 1;
        proof {
            assert(nonce@ =~= cookie@.subrange(3, i as int));
        }
    }
    let mut ciphertext: Vec<u8> = Vec::new();
    let mut j: usize = 15;
    while j < cookie.len()
        invariant
            15 <= j <= cookie@.len(),
            ciphertext@ == cookie@.subrange(15, j as int),
        decreases cookie@.len() - j,
    {
        ciphertext.push(cookie[j]);
        j = j + 1;
        proof {
            assert(ciphertext@ =~= cookie@.subrange(15, j as int));
        }
    }
    proof {
        assert(ciphertext@ =~= cookie@.skip(15));
    }
    Ok(GcmEnvelope { nonce, ciphertext })
}

/// A single-use holder for a nonce: present until taken once, consumed ever
/// after. Advancing a consumed holder fails closed — it never hands the same
/// nonce out twice.
pub struct OneNonceSequence {
    inner: Option<Vec<u8>>,
}

impl OneNonceSequence {
    /// The nonce still held, if any.
    pub closed spec fn view(&self) -> Option<Seq<u8>> {
        match self.inner {
            Some(nonce) => Some(nonce@),
            None => None,
        }
    }

    /// A fresh holder, its nonce not yet used.
    pub fn new(inner: Vec<u8>) -> (s: Self)
        ensures
            s@ == Some(inner@),
    {
        OneNonceSequence { inner: Some(inner) }
    }

    /// Take the nonce. The first call hands it out and consumes the holder;
    /// every later call fails with `DecryptionError` and the holder stays
    /// consumed, so a nonce is never silently re-emitted.
    pub fn advance(&mut self) -> (r: Result<Vec<u8>, GetCookieError>)
        ensures
            final(self)@ is None,
            old(self)@ matches Some(nonce) ==> r matches Ok(taken) && taken@ == nonce,
            old(self)@ is None ==> r == Err::<Vec<u8>, GetCookieError>(
                GetCookieError::DecryptionError,
            ),
    {
        match self.inner.take() {
            Some(nonce) => Ok(nonce),
            None => Err(GetCookieError::DecryptionError),
        }
    }
}

/// The platform's key-retrieval mechanism is a named external dependency
/// that nothing here supplies: every call reports `NotImplemented`, and the
/// decryptor below therefore never reaches its cipher step.
pub fn get_chrome_key() -> (r: Result<Vec<u8>, GetCookieError>)
    ensures
        r == Err::<Vec<u8>, GetCookieError>(GetCookieError::NotImplemented),
{
    Err(GetCookieError::NotImplemented)
}

/// What authenticated 256-bit GCM decryption makes of a ciphertext (tag
/// included) under a given key and nonce: the plaintext where the tag
/// verifies, and nothing otherwise. The outcome is a function of the three
/// inputs alone.
pub uninterp spec fn aes256_gcm_open_of(key: Seq<u8>, nonce: Seq<u8>, data: Seq<u8>) -> Option<
    Seq<u8>,
>;

/// Relies on `ring::aead::LessSafeKey::open_in_place` with `AES_256_GCM` and
/// empty additional data: it decrypts and verifies deterministically from
/// key, nonce and input, and reports an error (rather than panicking) where
/// the tag does not verify.
#[verifier::external_body]
fn aes256_gcm_open(key: &[u8], nonce: &[u8], data: &[u8]) -> (r: Option<Vec<u8>>)
    requires
        key@.len() == 32,
        nonce@.len() == 12,
    ensures
        r matches Some(p) ==> aes256_gcm_open_of(key@, nonce@, data@) == Some(p@),
        r is None ==> aes256_gcm_open_of(key@, nonce@, data@) is None,
{
    let unbound = match ring::aead::UnboundKey::new(&ring::aead::AES_256_GCM, key) {
        Ok(k) => k,
        Err(_) => return None,
    };
    let nonce = match ring::aead::Nonce::try_assume_unique_for_key(nonce) {
        Ok(n) => n,
        Err(_) => return None,
    };
    let key = ring::aead::LessSafeKey::new(unbound);
    let mut buffer = data.to_vec();
    match key.open_in_place(nonce, ring::aead::Aad::empty(), &mut buffer) {
        Ok(out) => Some(out.to_vec()),
        Err(_) => None,
    }
}

/// The error the authenticated path reports for a given envelope. With its
/// key retrieval an unfulfilled external dependency, every call ends in an
/// error: a misshapen or misversioned envelope in its parse error, and a
/// well-formed one in `NotImplemented` from the key step.
pub open spec fn gcm_decrypt_error(cookie: Seq<u8>) -> GetCookieError {
    match gcm_envelope_error(cookie) {
        Some(e) => e,
        None => GetCookieError::NotImplemented,
    }
}

/// Decrypt an authenticated envelope: parse and validate it, fetch the key,
/// then open the ciphertext under the single-use nonce.
///
/// The contract is exact: the call returns precisely the error that
/// `gcm_decrypt_error` assigns to the envelope, the parse rejecting bad
/// shapes and versions before any key work, and the unfulfilled key
/// dependency stopping every well-formed envelope at `NotImplemented`.
pub fn decrypt_encrypted_cookie(cookie: &Vec<u8>) -> (r: Result<String, GetCookieError>)
    ensures
        r == Err::<String, GetCookieError>(gcm_decrypt_error(cookie@)),
{
    let envelope = parse_gcm_envelope(cookie.as_slice())?;
    let key = get_chrome_key()?;
    let mut nonces = OneNonceSequence::new(envelope.nonce);
    let nonce = match nonces.advance() {
        Ok(n) => n,
        Err(e) => {
            return Err(e);
        },
    };
    match aes256_gcm_open(key.as_slice(), nonce.as_slice(), envelope.ciphertext.as_slice()) {
        None => Err(GetCookieError::DecryptionError),
        Some(plain) => match string_from_utf8(plain) {
            None => Err(GetCookieError::DecryptionError),
            Some(text) => Ok(text),
        },
    }
}

/// A too-short envelope is rejected as misshapen — `InvalidCookieFormat`,
/// whatever its bytes — and the parse does so before any key derivation
/// could even be attempted.
pub proof fn lemma_gcm_rejects_short_envelope(cookie: Seq<u8>)
    requires
        cookie.len() < 15,
    ensures
        gcm_decrypt_error(cookie) == GetCookieError::InvalidCookieFormat,
{
}

/// A long-enough envelope not opened by `"v10"` is rejected as misversioned
/// — `InvalidCookieFormatVersion`, whatever its remaining content.
pub proof fn lemma_gcm_rejects_bad_version(cookie: Seq<u8>)
    requires
        cookie.len() >= 15,
        cookie.subrange(0, 3) != v10_prefix(),
    ensures
        gcm_decrypt_error(cookie) == GetCookieError::InvalidCookieFormatVersion,
{
}

} // verus!
