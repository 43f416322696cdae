//! Read one named cookie of a Chromium-family browser and return it in
//! plaintext.
//!
//! The store lookup and the OS secret lookup are injected capabilities
//! ([`store::CookieStore`], [`store::SecretStore`]): the pipeline itself —
//! envelope parsing, key derivation, decryption and timestamp conversion —
//! is ordinary verified code over the values those capabilities hand back.

use vstd::prelude::*;

pub mod chrome;
pub mod cookie;
pub mod errors;
pub mod store;
pub mod text;

verus! {

/// Get a cookie with a given name for a given domain, in plaintext.
///
/// The pipeline runs once, sequentially: read the record through `store`,
/// decrypt its value with the key derived from the secret that `secrets`
/// holds, and hand the plaintext back. Every plaintext returned is the
/// genuine CBC decryption of some envelope under some derived key — never an
/// invented string. Every failure of any step is returned unchanged; no
/// partial cookie is ever returned, and a value the decryptor could not turn
/// into text surfaces as `DecryptionError`.
pub fn get_cookie<C: store::CookieStore, S: store::SecretStore>(
    store: &C,
    secrets: &S,
    domain: &str,
    cookie_name: &str,
) -> (r: Result<String, errors::GetCookieError>)
    ensures
        r matches Ok(s) ==> exists|envelope: Seq<u8>, secret: Seq<u8>|
            chrome::decrypt_osx::cbc_decrypt_spec(
                envelope,
                chrome::decrypt_osx::derived_key_of(secret),
            ) == Ok::<Seq<char>, errors::GetCookieError>(s@),
{
    match chrome::get_cookie(store, secrets, domain, cookie_name) {
        Err(e) => Err(e),
        Ok(cookie) => cookie_text(cookie.value),
    }
}

/// The plaintext of a cookie value, or the error that decryption reported.
///
/// A value still in the encrypted state at this point means the pipeline
/// failed to decrypt it; that surfaces as `DecryptionError`.
pub fn cookie_text(value: cookie::CookieValue) -> (r: Result<String, errors::GetCookieError>)
    ensures
        value matches cookie::CookieValue::Text(t) ==> r == Ok::<String, errors::GetCookieError>(t),
        value is Encrypted ==> r == Err::<String, errors::GetCookieError>(
            errors::GetCookieError::DecryptionError,
        ),
{
    match value {
        cookie::CookieValue::Text(text) => Ok(text),
        cookie::CookieValue::Encrypted(_) => Err(errors::GetCookieError::DecryptionError),
    }
}

} // verus!
