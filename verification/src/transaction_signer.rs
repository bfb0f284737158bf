use vstd::prelude::*;

use crate::error::Result;
use crate::hash::GetHash;
use crate::signature_scheme::SignatureScheme;
use crate::signer::Signer;

verus! {

/// Composition layer on top of [`Signer`]: sign a structured transaction
/// payload by reducing it to its canonical 32-byte digest and signing that.
///
/// This is pure composition — it adds no failure modes beyond those of the
/// underlying signer's `sign`.
pub trait TransactionSigner<K: SignatureScheme, T: GetHash> {
    /// Byte representation of the public key the produced signatures
    /// verify under.
    spec fn spec_verifying_key(&self) -> Seq<u8>;

    /// Whether the underlying signer can currently sign: backend reachable
    /// and bound key still present.
    spec fn spec_ready(&self) -> bool;

    /// Signs the transaction's canonical digest.  Every signature handed
    /// out verifies, under the scheme's rule, against the verifying key and
    /// the transaction's canonical digest — so the digest signed here is
    /// exactly the one any independent party recomputes from the same
    /// logical transaction.
    fn sign_transaction(&self, transaction: &T) -> (r: Result<K::Signature>)
        ensures
            (r matches Ok(sig) ==> K::spec_verifies(
                self.spec_verifying_key(),
                transaction.spec_hash(),
                sig@,
            )),
            self.spec_ready() ==> r is Ok,
    ;
}

/// Every signer can sign transactions: hash the payload canonically, then
/// delegate the digest to [`Signer::sign`].
impl<K: SignatureScheme, T: GetHash, S: Signer<K>> TransactionSigner<K, T> for S {
    open spec fn spec_verifying_key(&self) -> Seq<u8> {
        self.spec_public_key()
    }

    open spec fn spec_ready(&self) -> bool {
        self.spec_connected() && self.spec_key_live()
    }

    fn sign_transaction(&self, transaction: &T) -> (r: Result<K::Signature>) {
        let hash = transaction.get_hash();
        self.sign(hash.as_slice())
    }
}

} // verus!
