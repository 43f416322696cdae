use vstd::prelude::*;
use crate::errors::GetCookieError;

verus! {

/// One raw row of the cookie table, exactly as the lookup engine hands it
/// out: the stored domain, the two store-epoch timestamps and the encrypted
/// value, all as plain values.
#[derive(Debug, Clone)]
pub struct CookieRow {
    /// The domain column of the row.
    pub host_key: String,
    /// Expiry in store-epoch microseconds; `0` means unset.
    pub expires_utc: i64,
    /// Last access in store-epoch microseconds; `0` means unset.
    pub last_access_utc: i64,
    /// The versioned encrypted envelope.
    pub encrypted_value: Vec<u8>,
}

/// The OS credential manager, seen as an injected read-only capability.
///
/// What a lookup returns depends on the machine's state, so nothing is
/// promised of the outcome; the pipeline states what it does with every
/// possible answer. An implementation reports `Err(SecretNotFound)` when no
/// entry exists under the given names and `Err(SecretBackendError)` for any
/// lower-level failure, and never creates or modifies the stored secret.
pub trait SecretStore {
    /// Look up the secret stored under `service` / `account`.
    fn get_secret(&self, service: &str, account: &str) -> Result<Vec<u8>, GetCookieError>;
}

/// The browser's cookie database, seen as an injected read-only capability.
///
/// An implementation runs one lookup: rows whose domain column matches
/// `domain` under the store's prefix convention and whose name column equals
/// `name` exactly. It answers `Ok(Some(row))` with the first matching row in
/// the engine's natural order, `Ok(None)` when no row matches,
/// `Err(StoreNotFound)` when the store file is absent, and
/// `Err(StoreIOError)` for any other engine failure.
pub trait CookieStore {
    /// Look up the first row for `domain` / `name`.
    fn read_cookie_row(&self, domain: &str, name: &str) -> Result<
        Option<CookieRow>,
        GetCookieError,
    >;
}

/// An in-memory secret store: answers every lookup with one fixed secret.
/// This is what makes the key-derivation path testable without touching the
/// real OS credential manager.
pub struct MemorySecretStore {
    /// The secret handed to every lookup.
    pub secret: Vec<u8>,
}

impl MemorySecretStore {
    /// A store that always answers with `secret`.
    pub fn new(secret: Vec<u8>) -> (s: Self)
        ensures
            s.secret == secret,
    {
        MemorySecretStore { secret }
    }
}

impl SecretStore for MemorySecretStore {
    fn get_secret(&self, service: &str, account: &str) -> Result<Vec<u8>, GetCookieError> {
        Ok(self.secret.clone())
    }
}

/// An in-memory cookie store: holds at most one row, or a fixed failure, and
/// answers every lookup with it.
pub struct MemoryCookieStore {
    /// The failure every lookup reports, if any; it takes precedence over `row`.
    pub failure: Option<GetCookieError>,
    /// The single row every lookup finds, if any.
    pub row: Option<CookieRow>,
}

impl MemoryCookieStore {
    /// A store that answers every lookup with `row` (or with no row at all).
    pub fn with_row(row: Option<CookieRow>) -> (s: Self)
        ensures
            s.failure is None,
            s.row == row,
    {
        MemoryCookieStore { failure: None, row }
    }

    /// A store whose every lookup fails with `failure`.
    pub fn failing(failure: GetCookieError) -> (s: Self)
        ensures
            s.failure == Some(failure),
            s.row is None,
    {
        MemoryCookieStore { failure: Some(failure), row: None }
    }
}

impl CookieStore for MemoryCookieStore {
    fn read_cookie_row(&self, domain: &str, name: &str) -> Result<
        Option<CookieRow>,
        GetCookieError,
    > {
        match &self.failure {
            Some(e) => Err(*e),
            None => match &self.row {
                Some(row) => Ok(Some(row.clone())),
                None => Ok(None),
            },
        }
    }
}

} // verus!
