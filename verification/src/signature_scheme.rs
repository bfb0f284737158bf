use vstd::prelude::*;

verus! {

/// Type-level descriptor of one cryptographic algorithm family.
///
/// A `SignatureScheme` binds a public-key representation, a signature
/// representation, and the message type the scheme signs.  It carries no
/// runtime state: it exists so that every capability trait can be generic
/// over "which cryptography" without runtime dispatch.  Mixing public keys
/// or signatures across schemes is a type error, never a runtime check.
///
/// `PublicKey` and `Signature` must be viewable as byte sequences, so that
/// they can cross process and serialization boundaries generically, and so
/// that the scheme's verification rule can be stated once over bytes.
pub trait SignatureScheme {
    type PublicKey: View<V = Seq<u8>>;
    type Signature: View<V = Seq<u8>>;
    type Input;

    /// The scheme's verification rule: does `sig` verify as a signature over
    /// `msg` under the public key `pk`?  Stated over byte representations so
    /// that it is independent of the concrete key and signature types.
    spec fn spec_verifies(pk: Seq<u8>, msg: Seq<u8>, sig: Seq<u8>) -> bool;

    /// Which public-key byte strings are well formed under this scheme.
    /// Every key pair a backend generates must have a well-formed public key.
    spec fn spec_pk_wf(pk: Seq<u8>) -> bool;
}

} // verus!
