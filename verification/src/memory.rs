use vstd::prelude::*;

use std::collections::HashMap;

use crate::error::Error;
use crate::error::Result;
use crate::hash::append_bytes;
use crate::hash::blake2b256;
use crate::hash::blake2b256_of;
use crate::key_signature_set::KeySignatureSet;
use crate::signature_scheme::SignatureScheme;
use crate::signer::Signer;
use crate::storage::KeyDelete;
use crate::storage::KeyExist;
use crate::storage::KeyGenerate;
use crate::storage::KeyGet;
use crate::storage::KeySign;
use crate::storage::StoreView;

verus! {

broadcast use vstd::std_specs::hash::group_hash_axioms;

/// A deterministic keyed-hash scheme: a signature over `msg` under the
/// 32-byte key `pk` is the Blake2b-256 digest of `pk` followed by `msg`,
/// and verification recomputes that digest.
///
/// The verifying key is the keying material itself, so whoever can verify
/// can also sign.  That makes this a reference scheme for exercising the
/// capability contracts — backends wanting asymmetric guarantees bind a
/// public-key scheme instead.
pub struct KeyedHashScheme;

impl SignatureScheme for KeyedHashScheme {
    type PublicKey = Vec<u8>;

    type Signature = Vec<u8>;

    type Input = Vec<u8>;

    open spec fn spec_verifies(pk: Seq<u8>, msg: Seq<u8>, sig: Seq<u8>) -> bool {
        sig == blake2b256_of(pk + msg)
    }

    open spec fn spec_pk_wf(pk: Seq<u8>) -> bool {
        pk.len() == 32
    }
}

impl KeySignatureSet for KeyedHashScheme {
    type PublicKey = Vec<u8>;

    type Signature = Vec<u8>;
}

impl KeyedHashScheme {
    /// Executable form of the scheme's verification rule: recompute the
    /// digest of `pk` followed by `msg` and compare it with `sig`.
    pub fn verify(pk: &Vec<u8>, msg: &[u8], sig: &Vec<u8>) -> (r: bool)
        ensures
            r == Self::spec_verifies(pk@, msg@, sig@),
    {
        let mut buf: Vec<u8> = Vec::new();
        append_bytes(&mut buf, pk.as_slice());
        append_bytes(&mut buf, msg);
        proof {
            assert(buf@ =~= pk@ + msg@);
        }
        let digest = blake2b256(buf.as_slice());
        if sig.len() != 32 {
            return false;
        }
        let mut i: usize = 0;
        while i < 32
            invariant
                i <= 32,
                sig@.len() == 32,
                digest@.len() == 32,
                digest@ == blake2b256_of(pk@ + msg@),
                forall|j: int| 0 <= j < i ==> sig@[j] == digest@[j],
            decreases 32 - i,
        {
            if sig[i] != digest[i] {
                return false;
            }
            i = i + 1;
        }
        proof {
            assert(sig@ =~= digest@);
        }
        true
    }
}

/// Law: signing and verifying round-trip.  For any 32-byte key material and
/// any message, the signature the keyed-hash scheme produces — the digest of
/// key followed by message — verifies under the same key.
pub proof fn lemma_sign_verify_roundtrip(pk: Seq<u8>, msg: Seq<u8>)
    ensures
        KeyedHashScheme::spec_verifies(pk, msg, blake2b256_of(pk + msg)),
{
}

/// Generation options of the in-memory store: callers may install their own
/// 32-byte keying material; by default the store derives fresh material
/// from the minted identifier.
pub struct MemoryOptions {
    /// Keying material to install, which must be exactly 32 bytes; `None`
    /// lets the store derive material of its own.
    pub key_material: Option<Vec<u8>>,
}

impl Default for MemoryOptions {
    /// The default options: no caller-supplied material.
    fn default() -> (r: Self)
        ensures
            r.key_material is None,
    {
        MemoryOptions { key_material: None }
    }
}

/// A signer handed out by [`MemoryKeyStore`]: it snapshots the keying
/// material at lookup time, so it keeps signing even if the key is later
/// deleted from the store — the store, not the signer, is the source of
/// truth for liveness.
pub struct MemorySigner {
    key_id: u64,
    material: Vec<u8>,
}

impl Signer<KeyedHashScheme> for MemorySigner {
    type KeyId = u64;

    closed spec fn spec_public_key(&self) -> Seq<u8> {
        self.material@
    }

    closed spec fn spec_key_id(&self) -> u64 {
        self.key_id
    }

    closed spec fn spec_connected(&self) -> bool {
        true
    }

    closed spec fn spec_key_live(&self) -> bool {
        true
    }

    fn sign(&self, data: &[u8]) -> (r: Result<Vec<u8>>) {
        let mut buf: Vec<u8> = Vec::new();
        append_bytes(&mut buf, self.material.as_slice());
        append_bytes(&mut buf, data);
        proof {
            assert(buf@ =~= self.material@ + data@);
        }
        let digest = blake2b256(buf.as_slice());
        let mut sig: Vec<u8> = Vec::new();
        append_bytes(&mut sig, digest.as_slice());
        Ok(sig)
    }

    fn public_key(&self) -> (r: Result<Vec<u8>>) {
        let mut pk: Vec<u8> = Vec::new();
        append_bytes(&mut pk, self.material.as_slice());
        Ok(pk)
    }

    fn key_id(&self) -> (r: &u64) {
        &self.key_id
    }
}

/// An in-memory key store over the keyed-hash scheme, with `u64`
/// identifiers minted from a counter.
///
/// It implements every capability trait, so it is a [`crate::KeysStorage`]
/// backend; it also serves as the reference against which the capability
/// contracts are exercised.  It refuses service only once its identifier
/// space is exhausted.
pub struct MemoryKeyStore {
    table: HashMap<u64, Vec<u8>>,
    next_id: u64,
}

impl MemoryKeyStore {
    #[verifier::type_invariant]
    spec fn wf(&self) -> bool {
        forall|id: u64| #[trigger]
            self.table@.dom().contains(id) ==> id < self.next_id && self.table@[id]@.len() == 32
    }

    /// An empty store whose first minted identifier is 0.
    pub fn new() -> (r: Self)
        ensures
            r.spec_keys() == Map::<u64, Seq<u8>>::empty(),
            r.spec_connected(),
    {
        let r = MemoryKeyStore { table: HashMap::new(), next_id: 0 };
        proof {
            assert(r.spec_keys() =~= Map::<u64, Seq<u8>>::empty());
        }
        r
    }

    /// An empty store that mints identifiers starting at `first_id`.
    /// Starting at `u64::MAX` leaves no identifier to mint, so such a store
    /// can no longer serve generation requests.
    pub fn starting_at(first_id: u64) -> (r: Self)
        ensures
            r.spec_keys() == Map::<u64, Seq<u8>>::empty(),
            r.spec_connected() == (first_id < u64::MAX),
    {
        let r = MemoryKeyStore { table: HashMap::new(), next_id: first_id };
        proof {
            assert(r.spec_keys() =~= Map::<u64, Seq<u8>>::empty());
        }
        r
    }

    /// Derives 32 bytes of keying material from an identifier: the digest
    /// of the identifier's eight little-endian bytes.
    fn derive_material(id: u64) -> (r: Vec<u8>)
        ensures
            r@.len() == 32,
    {
        let mut seed: Vec<u8> = Vec::new();
        let mut v: u64 = id;
        let mut j: usize = 0;
        while j < 8
            invariant
                j <= 8,
                seed@.len() == j,
            decreases 8 - j,
        {
            seed.push((v & 0xff) as u8);
            v = v >> 8;
            j = j + 1;
        }
        let digest = blake2b256(seed.as_slice());
        let mut material: Vec<u8> = Vec::new();
        append_bytes(&mut material, digest.as_slice());
        material
    }
}

impl StoreView<u64> for MemoryKeyStore {
    closed spec fn spec_keys(&self) -> Map<u64, Seq<u8>> {
        self.table@.map_values(|v: Vec<u8>| v@)
    }

    closed spec fn spec_connected(&self) -> bool {
        self.next_id < u64::MAX
    }
}

impl KeyGenerate<KeyedHashScheme, u64> for MemoryKeyStore {
    type Options = MemoryOptions;

    open spec fn spec_options_ok(options: &MemoryOptions) -> bool {
        options.key_material matches Some(m) ==> m@.len() == 32
    }

    fn generate_key_with_options(&mut self, options: MemoryOptions) -> (r: Result<
        (u64, Vec<u8>),
    >) {
        proof {
            use_type_invariant(&*self);
        }
        if self.next_id == u64::MAX {
            return Err(Error::StoreDisconnected("identifier space exhausted".to_string()));
        }
        let material: Vec<u8> = match options.key_material {
            Some(m) => {
                if m.len() != 32 {
                    proof {
                        assert(options.key_material matches Some(mm) && mm@ == m@);
                        assert(!Self::spec_options_ok(&options));
                    }
                    return Err(Error::InvalidOptions);
                }
                m
            },
            None => Self::derive_material(self.next_id),
        };
        let id = self.next_id;
        self.next_id = self.next_id + 1;
        let mut pk: Vec<u8> = Vec::new();
        append_bytes(&mut pk, material.as_slice());
        let mut table: HashMap<u64, Vec<u8>> = HashMap::new();
        core::mem::swap(&mut table, &mut self.table);
        table.insert(id, material);
        self.table = table;
        proof {
            assert(self.spec_keys() =~= old(self).spec_keys().insert(id, pk@));
        }
        Ok((id, pk))
    }
}

impl KeySign<KeyedHashScheme, u64> for MemoryKeyStore {
    type SignerT = MemorySigner;

    fn get_signer(&self, key_id: &u64) -> (r: Result<MemorySigner>) {
        match self.table.get(key_id) {
            Some(m) => {
                let mut material: Vec<u8> = Vec::new();
                append_bytes(&mut material, m.as_slice());
                Ok(MemorySigner { key_id: *key_id, material })
            },
            None => Err(Error::KeyNotFound(key_id.to_string())),
        }
    }
}

impl KeyDelete<u64> for MemoryKeyStore {
    fn delete(&mut self, key_id: &u64) -> (r: Result<()>) {
        proof {
            use_type_invariant(&*self);
        }
        let mut table: HashMap<u64, Vec<u8>> = HashMap::new();
        core::mem::swap(&mut table, &mut self.table);
        let removed = table.remove(key_id);
        self.table = table;
        match removed {
            Some(_) => {
                proof {
                    assert(self.spec_keys() =~= old(self).spec_keys().remove(*key_id));
                }
                Ok(())
            },
            None => {
                proof {
                    assert(self.spec_keys() =~= old(self).spec_keys());
                }
                Err(Error::KeyNotFound(key_id.to_string()))
            },
        }
    }
}

impl KeyExist<u64> for MemoryKeyStore {
    fn exist(&self, key_id: &u64) -> (r: Result<bool>) {
        Ok(self.table.contains_key(key_id))
    }
}

impl KeyGet<KeyedHashScheme, u64> for MemoryKeyStore {
    fn public_key(&self, key_id: &u64) -> (r: Result<Vec<u8>>) {
        match self.table.get(key_id) {
            Some(m) => {
                let mut pk: Vec<u8> = Vec::new();
                append_bytes(&mut pk, m.as_slice());
                Ok(pk)
            },
            None => Err(Error::KeyNotFound(key_id.to_string())),
        }
    }
}

} // verus!
