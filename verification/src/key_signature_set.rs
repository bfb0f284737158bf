use vstd::prelude::*;

verus! {

/// Minimal type-level descriptor binding a public-key and a signature
/// representation, without fixing a message type.
///
/// This is the reduced form of [`crate::SignatureScheme`] for callers that
/// only need the two byte-representable types, for instance to move keys and
/// signatures across a serialization boundary.
pub trait KeySignatureSet {
    type PublicKey: View<V = Seq<u8>>;
    type Signature: View<V = Seq<u8>>;
}

} // verus!
