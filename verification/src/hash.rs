use vstd::prelude::*;

verus! {

/// The Blake2b-256 digest of a byte sequence, as computed by the fixed
/// 32-byte hash function this library relies on.  The digest is a function
/// of the input bytes alone; nothing beyond that is assumed of it here.
pub uninterp spec fn blake2b256_of(data: Seq<u8>) -> Seq<u8>;

/// Relies on fastcrypto's `Blake2b256` (`HashFunction::digest`): the 32-byte
/// digest depends on the input bytes alone.
#[verifier::external_body]
pub(crate) fn blake2b256(data: &[u8]) -> (r: [u8; 32])
    ensures
        r@ == blake2b256_of(data@),
        r@.len() == 32,
{
    <fastcrypto::hash::Blake2b256 as fastcrypto::hash::HashFunction<32>>::digest(data).digest
}

/// Appends every byte of `src` to `dst`, in order.
pub(crate) fn append_bytes(dst: &mut Vec<u8>, src: &[u8])
    ensures
        final(dst)@ == old(dst)@ + src@,
{
    let mut i: usize = 0;
    while i < src.len()
        invariant
            i <= src.len(),
            dst@ == old(dst)@ + src@.subrange(0, i as int),
        decreases src.len() - i,
    {
        dst.push(src[i]);
        proof {
            assert(old(dst)@ + src@.subrange(0, i + 1 as int) =~= (old(dst)@ + src@.subrange(
                0,
                i as int,
            )).push(src@[i as int]));
        }
        i = i + 1;
    }
    proof {
        assert(src@.subrange(0, src@.len() as int) =~= src@);
    }
}

/// Capability to reduce a structured value to its canonical 32-byte digest.
///
/// The calculation is domain specific: a value decides its own canonical
/// byte encoding and the digest is taken over that encoding, so that every
/// implementation hashing the same logical value reproduces the same 32
/// bytes.
pub trait GetHash {
    /// The canonical digest of this value, as a byte sequence of length 32.
    spec fn spec_hash(&self) -> Seq<u8>;

    /// Returns the canonical digest.  The result is determined by the value
    /// alone: two calls on equal values yield identical bytes.
    fn get_hash(&self) -> (r: [u8; 32])
        ensures
            r@ == self.spec_hash(),
    ;
}

/// First byte of the domain-separation tag: the kind of payload signed.
pub const INTENT_SCOPE_TRANSACTION_DATA: u8 = 0;

/// Second byte of the domain-separation tag: the tag format's version.
pub const INTENT_VERSION: u8 = 0;

/// Third byte of the domain-separation tag: which application the
/// signature is meant for.
pub const INTENT_APP_ID: u8 = 0;

/// The intent message for a transaction payload: the fixed three-byte
/// domain-separation tag, followed by the payload's canonical bytes.  Any
/// two implementations signing the same logical transaction must agree on
/// this encoding bit for bit, or signatures will not verify against
/// independently computed digests.
pub open spec fn spec_intent_message(payload: Seq<u8>) -> Seq<u8> {
    seq![INTENT_SCOPE_TRANSACTION_DATA, INTENT_VERSION, INTENT_APP_ID] + payload
}

/// A transaction payload in its canonical serialized form, ready for
/// intent tagging and hashing.
///
/// Whatever produced the structured transaction converts it to its
/// canonical byte encoding before handing it to this layer; this type then
/// fixes the digest those bytes are signed under.
pub struct TransactionData {
    bytes: Vec<u8>,
}

impl View for TransactionData {
    type V = Seq<u8>;

    closed spec fn view(&self) -> Seq<u8> {
        self.bytes@
    }
}

impl TransactionData {
    /// Wraps an already canonically encoded transaction payload.
    pub fn new(bytes: Vec<u8>) -> (r: Self)
        ensures
            r@ == bytes@,
    {
        TransactionData { bytes }
    }

    /// The canonical bytes this payload was built from.
    pub fn bytes(&self) -> (r: &Vec<u8>)
        ensures
            r@ == self@,
    {
        &self.bytes
    }
}

impl GetHash for TransactionData {
    open spec fn spec_hash(&self) -> Seq<u8> {
        blake2b256_of(spec_intent_message(self@))
    }

    fn get_hash(&self) -> (r: [u8; 32]) {
        let mut buf: Vec<u8> = Vec::new();
        buf.push(INTENT_SCOPE_TRANSACTION_DATA);
        buf.push(INTENT_VERSION);
        buf.push(INTENT_APP_ID);
        append_bytes(&mut buf, self.bytes.as_slice());
        proof {
            assert(buf@ =~= spec_intent_message(self@));
        }
        blake2b256(buf.as_slice())
    }
}

/// Law: the digest handed to a signer is determined by the transaction's
/// canonical bytes alone.  Re-encoding the same logical transaction and
/// re-hashing reproduces the exact 32-byte digest, on every call and
/// across processes.
pub proof fn lemma_transaction_digest_deterministic(a: &TransactionData, b: &TransactionData)
    requires
        a@ == b@,
    ensures
        a.spec_hash() == b.spec_hash(),
{
}

} // verus!
