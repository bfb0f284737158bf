use vstd::prelude::*;

use crate::error::Result;
use crate::signature_scheme::SignatureScheme;

verus! {

/// A per-key capability: produce signatures over arbitrary bytes, and report
/// the public counterpart, using the one key this signer is bound to.
///
/// A signer is a thin, revocable handle.  It owns no mutable key material of
/// its own; the backend remains the source of truth for whether the
/// underlying key still exists, and absence is detected lazily, at call
/// time.  `sign` takes raw bytes, never a structured message: any
/// domain-specific canonicalization is layered on top (see
/// [`crate::TransactionSigner`]), never inside.
pub trait Signer<K: SignatureScheme> {
    /// The backend-chosen identifier type naming the bound key.
    type KeyId;

    /// Byte representation of the public key this signer is bound to.
    spec fn spec_public_key(&self) -> Seq<u8>;

    /// The identifier this signer is bound to.
    spec fn spec_key_id(&self) -> Self::KeyId;

    /// Whether the backend holding the key material can be reached.
    spec fn spec_connected(&self) -> bool;

    /// Whether the bound key still exists in the backend.
    spec fn spec_key_live(&self) -> bool;

    /// Signs the given byte payload under the bound key.  Every signature
    /// handed out verifies, under the scheme's rule, against the bound
    /// public key and the payload.
    fn sign(&self, data: &[u8]) -> (r: Result<K::Signature>)
        ensures
            (r matches Ok(sig) ==> K::spec_verifies(
                self.spec_public_key(),
                data@,
                sig@,
            )),
            self.spec_connected() && self.spec_key_live() ==> r is Ok,
            (r matches Err(e) ==> {
                ||| (e is KeyNotFound && !self.spec_key_live())
                ||| (e is StoreDisconnected && !self.spec_connected())
            }),
    ;

    /// Returns the public counterpart of the bound key.
    fn public_key(&self) -> (r: Result<K::PublicKey>)
        ensures
            (r matches Ok(pk) ==> pk@ == self.spec_public_key()),
            self.spec_connected() && self.spec_key_live() ==> r is Ok,
            (r matches Err(e) ==> {
                ||| (e is KeyNotFound && !self.spec_key_live())
                ||| (e is StoreDisconnected && !self.spec_connected())
            }),
    ;

    /// Infallible accessor to the identifier this signer is bound to; used
    /// by composition layers and by callers correlating a signature with
    /// its key.
    fn key_id(&self) -> (r: &Self::KeyId)
        ensures
            *r == self.spec_key_id(),
    ;
}

} // verus!
