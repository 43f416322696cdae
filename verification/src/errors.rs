use vstd::prelude::*;

verus! {

/// Every terminal failure of the cookie pipeline.
///
/// No variant is ever retried internally and no partial cookie is returned
/// beside one: a failing step hands its error to the caller unchanged.
/// Cryptographic failures are deliberately coarse: padding, authentication-tag
/// and text-decoding problems all surface as `DecryptionError`, so that the
/// error never reveals which validation step failed.
#[derive(Clone, Copy, Debug, PartialEq, Eq, Structural)]
pub enum GetCookieError {
    /// The cookie database file is absent or is not a regular file.
    StoreNotFound,
    /// The lookup engine reported a lower-level failure (lock, I/O, corruption).
    StoreIOError,
    /// The lookup matched no row for the requested domain and name.
    CookieNotFound,
    /// The OS credential manager holds no entry under the requested name.
    SecretNotFound,
    /// The OS credential manager failed below the lookup itself.
    SecretBackendError,
    /// The encrypted envelope does not have the shape of any supported variant.
    InvalidCookieFormat,
    /// The envelope has the right shape but carries an unsupported version marker.
    InvalidCookieFormatVersion,
    /// Decryption, padding removal, tag verification or text decoding failed.
    DecryptionError,
    /// The platform's key-retrieval mechanism is an external dependency that
    /// no implementation supplies here.
    NotImplemented,
}

} // verus!
