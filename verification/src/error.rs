use vstd::prelude::*;

verus! {

/// The failures a key store or signer can report.
///
/// Every operation of the capability traits is independently fallible; a
/// failure is returned to the immediate caller unchanged in kind.
#[derive(Debug)]
pub enum Error {
    /// The referenced key does not exist in the backend.  Carries a rendering
    /// of the identifier that failed, so the caller can tell which lookup
    /// went wrong.
    KeyNotFound(String),
    /// The backend holding the key material is unreachable or errored at the
    /// transport or storage level.  Carries a detail message.
    StoreDisconnected(String),
    /// The caller supplied generation options the backend cannot honor.
    InvalidOptions,
    /// Opaque passthrough for backend-specific failures that fit none of the
    /// kinds above.
    Other(String),
}

/// Result alias used across the capability traits.
pub type Result<T, E = Error> = core::result::Result<T, E>;

} // verus!
