use vstd::prelude::*;
use vstd::arithmetic::div_mod::{lemma_fundamental_div_mod, lemma_fundamental_div_mod_converse,
    lemma_mod_bound};

use crate::cookie::{Cookie, CookieValue, Timestamp};
use crate::errors::GetCookieError;
use crate::store::{CookieRow, CookieStore, SecretStore};

pub mod decrypt_osx;
pub mod decrypt_win;

verus! {

/// The store counts time in microseconds since 1601-01-01 (the Windows /
/// Gregorian epoch), on every platform alike; this is the distance from that
/// epoch to the Unix epoch.
pub const WINDOWS_EPOCH_DELTA_MICROSECONDS: i64 = 11_644_473_600 * 1_000_000;

/// The three-byte version signature `"v10"` that opens every supported
/// encrypted envelope.
pub open spec fn v10_prefix() -> Seq<u8> {
    seq![0x76u8, 0x31u8, 0x30u8]
}

/// What a store-epoch value denotes: nothing for the sentinel `0`, and
/// otherwise the instant `chrome_timestamp` microseconds after the Windows
/// epoch, split into whole seconds and a microsecond residue in
/// `0 .. 1_000_000` (Euclidean division, so the residue never goes negative
/// for instants before 1970).
pub open spec fn chrome_time_of(chrome_timestamp: i64) -> Option<Timestamp> {
    if chrome_timestamp == 0 {
        None
    } else {
        let unix_micros = chrome_timestamp - WINDOWS_EPOCH_DELTA_MICROSECONDS;
        Some(
            Timestamp {
                secs: (unix_micros / (1_000_000 as int)) as i64,
                micros: (unix_micros % (1_000_000 as int)) as u32,
            },
        )
    }
}

/// The denotation is well formed and exact: for every non-sentinel input the
/// result carries a residue below one second, and seconds and residue
/// together recover the input's distance from the Unix epoch bit for bit.
pub proof fn lemma_chrome_time_characterization(chrome_timestamp: i64)
    requires
        chrome_timestamp != 0,
    ensures
        chrome_time_of(chrome_timestamp) matches Some(ts) && ts.wf() && ts.secs * 1_000_000
            + ts.micros == chrome_timestamp - WINDOWS_EPOCH_DELTA_MICROSECONDS,
{
    let m = chrome_timestamp - WINDOWS_EPOCH_DELTA_MICROSECONDS;
    lemma_fundamental_div_mod(m, 1_000_000);
    lemma_mod_bound(m, 1_000_000);
}

/// Convert a store-epoch value to a timestamp; the sentinel `0` means that no
/// time was recorded at all.
pub fn chrome_timestamp_to_time(chrome_timestamp: i64) -> (r: Option<Timestamp>)
    ensures
        r == chrome_time_of(chrome_timestamp),
{
    if chrome_timestamp == 0 {
        return None;
    }
    if chrome_timestamp >= WINDOWS_EPOCH_DELTA_MICROSECONDS {
        let u: u64 = (chrome_timestamp - WINDOWS_EPOCH_DELTA_MICROSECONDS) as u64;
        let secs: u64 = u / 1_000_000;
        let micros: u64 = u % 1_000_000;
        proof {
            lemma_fundamental_div_mod(u as int, 1_000_000);
            lemma_mod_bound(u as int, 1_000_000);
        }
        Some(Timestamp { secs: secs as i64, micros: micros as u32 })
    } else {
        // The instant lies before the Unix epoch: split the magnitude of the
        // distance instead, so that no intermediate value overflows.
        let mag: u64 = if chrome_timestamp >= 0 {
            (WINDOWS_EPOCH_DELTA_MICROSECONDS - chrome_timestamp) as u64
        } else {
            let neg: u64 = ((-(chrome_timestamp + 1)) as u64) + 1;
            (WINDOWS_EPOCH_DELTA_MICROSECONDS as u64) + neg
        };
        let ghost m: int = chrome_timestamp - WINDOWS_EPOCH_DELTA_MICROSECONDS;
        let q: u64 = mag / 1_000_000;
        let r: u64 = mag % 1_000_000;
        proof {
            lemma_fundamental_div_mod(mag as int, 1_000_000);
            lemma_mod_bound(mag as int, 1_000_000);
        }
        if r == 0 {
            proof {
                lemma_fundamental_div_mod_converse(m, 1_000_000, -(q as int), 0);
            }
            Some(Timestamp { secs: -(q as i64), micros: 0 })
        } else {
            proof {
                lemma_fundamental_div_mod_converse(
                    m,
                    1_000_000,
                    -(q as int) - 1,
                    1_000_000 - (r as int),
                );
            }
            Some(Timestamp { secs: -(q as i64) - 1, micros: (1_000_000 - r) as u32 })
        }
    }
}

/// Assemble a cookie from the lookup's answer: no row means the cookie does
/// not exist, and a row becomes a cookie whose value is still encrypted and
/// whose store-epoch columns are converted to timestamps.
pub fn cookie_from_row(cookie_name: &str, row: Option<CookieRow>) -> (r: Result<
    Cookie,
    GetCookieError,
>)
    ensures
        row is None ==> r == Err::<Cookie, GetCookieError>(GetCookieError::CookieNotFound),
        row matches Some(rw) ==> r matches Ok(c) && c.name@ == cookie_name@ && c.domain
            == rw.host_key && c.value == CookieValue::Encrypted(rw.encrypted_value)
            && c.last_access == chrome_time_of(rw.last_access_utc) && c.expires == chrome_time_of(
            rw.expires_utc,
        ),
{
    match row {
        None => Err(GetCookieError::CookieNotFound),
        Some(rw) => Ok(
            Cookie {
                name: cookie_name.to_string(),
                value: CookieValue::Encrypted(rw.encrypted_value),
                last_access: chrome_timestamp_to_time(rw.last_access_utc),
                expires: chrome_timestamp_to_time(rw.expires_utc),
                domain: rw.host_key,
            },
        ),
    }
}

/// Read the requested cookie from the store, its value still encrypted.
///
/// A lookup that matches no row is `CookieNotFound`; any failure the store
/// itself reports is handed back unchanged.
pub fn get_encrypted_cookie<C: CookieStore>(store: &C, domain: &str, cookie_name: &str) -> (r:
    Result<Cookie, GetCookieError>)
    ensures
        r matches Ok(c) ==> c.name@ == cookie_name@ && c.value is Encrypted,
{
    match store.read_cookie_row(domain, cookie_name) {
        Err(e) => Err(e),
        Ok(row) => cookie_from_row(cookie_name, row),
    }
}

/// Get a cookie with a given name for a given domain: read the record, then
/// replace its encrypted value — and nothing else — with the decrypted
/// plaintext (`Cookie::with_plaintext` is the contracted one mutation; a
/// record already in plaintext is returned as it is).
///
/// Every returned plaintext is the genuine CBC decryption of some envelope
/// under some derived key, and every failure of the lookup, the secret store
/// or the decryptor is handed back unchanged.
pub fn get_cookie<C: CookieStore, S: SecretStore>(
    store: &C,
    secrets: &S,
    domain: &str,
    cookie_name: &str,
) -> (r: Result<Cookie, GetCookieError>)
    ensures
        r matches Ok(c) ==> c.name@ == cookie_name@ && (c.value matches CookieValue::Text(t)
            && exists|envelope: Seq<u8>, secret: Seq<u8>|
            decrypt_osx::cbc_decrypt_spec(envelope, decrypt_osx::derived_key_of(secret)) == Ok::<
                Seq<char>,
                GetCookieError,
            >(t@)),
{
    let cookie = get_encrypted_cookie(store, domain, cookie_name)?;
    match &cookie.value {
        CookieValue::Encrypted(encrypted) => {
            let ghost env: Seq<u8> = encrypted@;
            let text = decrypt_osx::decrypt_encrypted_cookie(secrets, encrypted.as_slice())?;
            proof {
                let secret = choose|secret: Seq<u8>|
                    decrypt_osx::cbc_decrypt_spec(env, decrypt_osx::derived_key_of(secret)) == Ok::<
                        Seq<char>,
                        GetCookieError,
                    >(text@);
                assert(decrypt_osx::cbc_decrypt_spec(env, decrypt_osx::derived_key_of(secret))
                    == Ok::<Seq<char>, GetCookieError>(text@));
            }
            Ok(cookie.with_plaintext(text))
        },
        CookieValue::Text(_) => Ok(cookie),
    }
}

} // verus!
