use vstd::prelude::*;

use aes::cipher::{block_padding::Pkcs7, BlockDecryptMut, KeyIvInit};

use crate::chrome::v10_prefix;
use crate::errors::GetCookieError;
use crate::store::SecretStore;
use crate::text::{string_from_utf8, utf8_decode_of};

verus! {

/// The keyed-hash iteration count the browser uses on this path.
pub const PBKDF2_ITERATIONS: u32 = 1003;

/// A secret longer than this cannot be stretched in one keyed-hash pass; the
/// real credential managers stay far below it.
pub const MAX_SECRET_LEN: u64 = 0x1000_0000_0000_0000;

/// The fixed derivation salt, the ASCII literal `"saltysalt"`.
pub open spec fn chrome_salt() -> Seq<u8> {
    seq![0x73u8, 0x61u8, 0x6cu8, 0x74u8, 0x79u8, 0x73u8, 0x61u8, 0x6cu8, 0x74u8]
}

/// The 16 bytes that the password-based key derivation (keyed on HMAC-SHA1)
/// produces from a salt, a secret and an iteration count. The outcome is a
/// function of these three alone: same inputs, same bytes, on every machine.
pub uninterp spec fn pbkdf2_hmac_sha1_16_of(salt: Seq<u8>, secret: Seq<u8>, iterations: u32) -> Seq<
    u8,
>;

/// Relies on `ring::pbkdf2::derive` with `PBKDF2_HMAC_SHA1`: it fills the
/// 16-byte output deterministically from salt, secret and iteration count.
/// The length bounds keep the inputs below the digest's limit, past which the
/// call would not return normally.
#[verifier::external_body]
fn pbkdf2_hmac_sha1_16(salt: &[u8], secret: &[u8], iterations: u32) -> (r: [u8; 16])
    requires
        1 <= iterations,
        salt@.len() <= 1024,
        secret@.len() <= MAX_SECRET_LEN,
    ensures
        r@ == pbkdf2_hmac_sha1_16_of(salt@, secret@, iterations),
{
    let mut out = [0u8; 16];
    ring::pbkdf2::derive(
        ring::pbkdf2::PBKDF2_HMAC_SHA1,
        core::num::NonZeroU32::new(iterations).unwrap(),
        salt,
        secret,
        &mut out,
    );
    out
}

/// The key that a given secret derives to on this path: fixed salt
/// `"saltysalt"`, 1003 iterations, 16 bytes out.
pub open spec fn derived_key_of(secret: Seq<u8>) -> Seq<u8> {
    pbkdf2_hmac_sha1_16_of(chrome_salt(), secret, 1003)
}

/// Stretch an OS secret into the 16-byte symmetric key.
///
/// Deterministic: the result is a function of the secret alone, with no
/// randomness and no per-call state, so the same secret always derives the
/// same key.
pub fn derive_key(secret: &[u8]) -> (r: [u8; 16])
    requires
        secret@.len() <= MAX_SECRET_LEN,
    ensures
        r@ == derived_key_of(secret@),
{
    let salt: [u8; 9] = [0x73, 0x61, 0x6c, 0x74, 0x79, 0x73, 0x61, 0x6c, 0x74];
    proof {
        assert(salt@ =~= chrome_salt());
    }
    pbkdf2_hmac_sha1_16(salt.as_slice(), secret, PBKDF2_ITERATIONS)
}

/// Key derivation is deterministic and reproducible bit for bit: two keys
/// derived from the same secret are equal, whenever and wherever derived.
pub proof fn lemma_derive_key_deterministic(secret: Seq<u8>, key1: Seq<u8>, key2: Seq<u8>)
    requires
        key1 == derived_key_of(secret),
        key2 == derived_key_of(secret),
    ensures
        key1 == key2,
{
}

/// Fetch the browser's master decryption key: look the secret up in the OS
/// credential manager and stretch it.
///
/// Every failure of the secret store is handed back unchanged; a secret too
/// long for the keyed hash is reported as a backend failure.
pub fn get_chrome_key<S: SecretStore>(secrets: &S) -> (r: Result<[u8; 16], GetCookieError>)
    ensures
        r matches Ok(k) ==> exists|secret: Seq<u8>| k@ == derived_key_of(secret),
{
    let secret = secrets.get_secret("Chrome Safe Storage", "Chrome")?;
    if secret.len() as u64 > MAX_SECRET_LEN {
        return Err(GetCookieError::SecretBackendError);
    }
    Ok(derive_key(secret.as_slice()))
}

/// What the 128-bit block cipher in CBC mode makes of a ciphertext under a
/// given key and initialization vector, byte-padding removal included:
/// the unpadded plaintext, or nothing where the input length or the padding
/// is invalid. The outcome is a function of the three inputs alone.
pub uninterp spec fn aes128_cbc_unpad_of(key: Seq<u8>, iv: Seq<u8>, data: Seq<u8>) -> Option<
    Seq<u8>,
>;

/// Relies on `cbc::Decryptor::<aes::Aes128Dec>::decrypt_padded_vec_mut` with
/// PKCS#7 unpadding: it decrypts deterministically from key, IV and input,
/// and reports an error exactly where the padding or the input length is
/// invalid, without panicking.
#[verifier::external_body]
fn aes128_cbc_decrypt(key: &[u8; 16], iv: &[u8; 16], data: &[u8]) -> (r: Option<Vec<u8>>)
    ensures
        r matches Some(p) ==> aes128_cbc_unpad_of(key@, iv@, data@) == Some(p@),
        r is None ==> aes128_cbc_unpad_of(key@, iv@, data@) is None,
{
    let cipher = cbc::Decryptor::<aes::Aes128Dec>::new(key.into(), iv.into());
    cipher.decrypt_padded_vec_mut::<Pkcs7>(data).ok()
}

/// The fixed initialization vector of this scheme: sixteen `0x20` bytes. It
/// is neither random nor stored — a known weakness of the scheme being
/// reproduced, not a choice of this library.
pub open spec fn cbc_iv() -> Seq<u8> {
    Seq::new(16, |i: int| 0x20u8)
}

/// Everything the CBC decryptor does with an envelope once the key is fixed:
/// reject anything not opened by the `"v10"` signature, then decrypt the
/// remainder under the fixed IV, then decode the plaintext as UTF-8. A
/// failure of either cryptographic step is the one coarse `DecryptionError`.
pub open spec fn cbc_decrypt_spec(cookie: Seq<u8>, key: Seq<u8>) -> Result<
    Seq<char>,
    GetCookieError,
> {
    if cookie.len() < 3 || cookie.subrange(0, 3) != v10_prefix() {
        Err(GetCookieError::InvalidCookieFormat)
    } else {
        match aes128_cbc_unpad_of(key, cbc_iv(), cookie.skip(3)) {
            None => Err(GetCookieError::DecryptionError),
            Some(plain) => match utf8_decode_of(plain) {
                None => Err(GetCookieError::DecryptionError),
                Some(text) => Ok(text),
            },
        }
    }
}

/// Decrypt a `"v10"` envelope with an already-derived key.
///
/// The result is exactly what `cbc_decrypt_spec` says of the input: the
/// decoded plaintext on success, and otherwise the precise error, including
/// `InvalidCookieFormat` for every envelope whose first three bytes are not
/// the signature.
pub fn decrypt_with_key(cookie: &[u8], key: &[u8; 16]) -> (r: Result<String, GetCookieError>)
    ensures
        r matches Ok(s) ==> cbc_decrypt_spec(cookie@, key@) == Ok::<Seq<char>, GetCookieError>(s@),
        r matches Err(e) ==> cbc_decrypt_spec(cookie@, key@) == Err::<Seq<char>, GetCookieError>(e),
{
    if cookie.len() < 3 {
        return Err(GetCookieError::InvalidCookieFormat);
    }
    if !(cookie[0] == 0x76 && cookie[1] == 0x31 && cookie[2] == 0x30) {
        proof {
            assert(cookie@.subrange(0, 3)[0] == cookie@[0]);
            assert(cookie@.subrange(0, 3)[1] == cookie@[1]);
            assert(cookie@.subrange(0, 3)[2] == cookie@[2]);
        }
        return Err(GetCookieError::InvalidCookieFormat);
    }
    proof {
        assert(cookie@.subrange(0, 3) =~= v10_prefix());
    }
    let iv: [u8; 16] = [0x20; 16];
    proof {
        assert(iv@ =~= cbc_iv());
    }
    let body: &[u8] = &cookie[3..cookie.len()];
    proof {
        assert(body@ =~= cookie@.skip(3));
    }
    match aes128_cbc_decrypt(key, &iv, body) {
        None => Err(GetCookieError::DecryptionError),
        Some(plain) => match string_from_utf8(plain) {
            None => Err(GetCookieError::DecryptionError),
            Some(text) => Ok(text),
        },
    }
}

/// The CBC path rejects a bad signature outright: whatever the key and
/// whatever the rest of the envelope, a first-three-byte mismatch is
/// `InvalidCookieFormat`.
pub proof fn lemma_cbc_rejects_bad_signature(cookie: Seq<u8>, key: Seq<u8>)
    requires
        cookie.len() < 3 || cookie.subrange(0, 3) != v10_prefix(),
    ensures
        cbc_decrypt_spec(cookie, key) == Err::<Seq<char>, GetCookieError>(
            GetCookieError::InvalidCookieFormat,
        ),
{
}

/// Decrypt an encrypted cookie envelope to its plaintext.
///
/// The signature is inspected before any key work: an envelope not opened by
/// `"v10"` is rejected as `InvalidCookieFormat` without consulting the secret
/// store at all. With the signature good, the key is fetched and derived
/// (any store failure handed back unchanged) and the envelope decrypted as
/// `cbc_decrypt_spec` says: every plaintext handed back is the genuine CBC
/// decryption of this envelope under a key derived from some secret.
pub fn decrypt_encrypted_cookie<S: SecretStore>(secrets: &S, cookie: &[u8]) -> (r: Result<
    String,
    GetCookieError,
>)
    ensures
        cookie@.len() < 3 || cookie@.subrange(0, 3) != v10_prefix() ==> r == Err::<
            String,
            GetCookieError,
        >(GetCookieError::InvalidCookieFormat),
        r matches Ok(s) ==> exists|secret: Seq<u8>|
            cbc_decrypt_spec(cookie@, derived_key_of(secret)) == Ok::<Seq<char>, GetCookieError>(
                s@,
            ),
{
    if cookie.len() < 3 {
        return Err(GetCookieError::InvalidCookieFormat);
    }
    if !(cookie[0] == 0x76 && cookie[1] == 0x31 && cookie[2] == 0x30) {
        proof {
            assert(cookie@.subrange(0, 3)[0] == cookie@[0]);
            assert(cookie@.subrange(0, 3)[1] == cookie@[1]);
            assert(cookie@.subrange(0, 3)[2] == cookie@[2]);
        }
        return Err(GetCookieError::InvalidCookieFormat);
    }
    proof {
        assert(cookie@.subrange(0, 3) =~= v10_prefix());
    }
    let key = get_chrome_key(secrets)?;
    match decrypt_with_key(cookie, &key) {
        Ok(text) => {
            proof {
                let secret = choose|secret: Seq<u8>| key@ == derived_key_of(secret);
                assert(cbc_decrypt_spec(cookie@, derived_key_of(secret)) == Ok::<
                    Seq<char>,
                    GetCookieError,
                >(text@));
            }
            Ok(text)
        },
        Err(e) => Err(e),
    }
}

} // verus!
