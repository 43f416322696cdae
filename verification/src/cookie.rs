use vstd::prelude::*;

verus! {

/// A point in time, counted from the Unix epoch: whole seconds together with
/// the residual microseconds within that second.
///
/// A well-formed value keeps the residue strictly below one second, so that
/// every instant has exactly one representation.
#[derive(Clone, Copy, Debug, PartialEq, Eq, Structural)]
pub struct Timestamp {
    /// Whole seconds since 1970-01-01T00:00:00Z (negative before it).
    pub secs: i64,
    /// Residual microseconds within the second, in `0 .. 1_000_000`.
    pub micros: u32,
}

impl Timestamp {
    /// The residue stays within one second.
    pub open spec fn wf(self) -> bool {
        self.micros < 1_000_000
    }
}

/// The value of a cookie, in exactly one of two states: the raw encrypted
/// envelope as the store holds it, or the recovered plaintext.
#[derive(Debug, Clone)]
pub enum CookieValue {
    /// The versioned binary envelope read from the store.
    Encrypted(Vec<u8>),
    /// The decrypted plaintext.
    Text(String),
}

/// One cookie, as read from the browser's store.
///
/// The reader creates it with `value` in the `Encrypted` state; the pipeline
/// replaces `value` with the `Text` state exactly once, after a successful
/// decryption, and never touches it again.
#[derive(Debug, Clone)]
pub struct Cookie {
    /// The cookie's name.
    pub name: String,
    /// The cookie's value.
    pub value: CookieValue,
    /// Last access time, if the store recorded one.
    pub last_access: Option<Timestamp>,
    /// The cookie's expiration, if any.
    pub expires: Option<Timestamp>,
    /// The domain the cookie belongs to.
    pub domain: String,
}

impl Cookie {
    /// The pipeline's one mutation of a record: put the value into the
    /// plaintext state, and keep the name, the domain and both timestamps
    /// exactly as they were.
    pub fn with_plaintext(self, text: String) -> (r: Cookie)
        ensures
            r.name == self.name,
            r.domain == self.domain,
            r.last_access == self.last_access,
            r.expires == self.expires,
            r.value == CookieValue::Text(text),
    {
        Cookie {
            name: self.name,
            value: CookieValue::Text(text),
            last_access: self.last_access,
            expires: self.expires,
            domain: self.domain,
        }
    }
}

} // verus!
