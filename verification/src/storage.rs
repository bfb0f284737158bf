use vstd::prelude::*;

use crate::error::Result;
use crate::signature_scheme::SignatureScheme;
use crate::signer::Signer;

verus! {

/// Abstract view of a key store: which identifiers currently name a key,
/// and the byte representation of each key's public half, together with
/// whether the backing store can currently be reached.
///
/// Every capability trait states its contract over this view, so that
/// independent capabilities implemented by one backend speak about one and
/// the same store.
pub trait StoreView<I> {
    /// The keys the store currently holds: identifier to public-key bytes.
    spec fn spec_keys(&self) -> Map<I, Seq<u8>>;

    /// Whether the backing store can currently serve requests.
    spec fn spec_connected(&self) -> bool;
}

/// The guarantee a successful key generation gives: the identifier is fresh,
/// the store afterwards holds exactly the old keys plus the new pair, and
/// the returned public key is well formed under the scheme.
///
/// Both generation entry points promise exactly this of their key pairs, so
/// a pair obtained with explicit options is indistinguishable, in these
/// guarantees, from one obtained with default options.
pub open spec fn spec_generate_ok<K: SignatureScheme, I, T: StoreView<I> + ?Sized>(
    pre: &T,
    post: &T,
    id: I,
    pk_bytes: Seq<u8>,
) -> bool {
    &&& !pre.spec_keys().dom().contains(id)
    &&& post.spec_keys() == pre.spec_keys().insert(id, pk_bytes)
    &&& K::spec_pk_wf(pk_bytes)
}

/// Everything `exist` may return on a store `s` when asked about `id`.
pub open spec fn spec_exist_post<I, T: StoreView<I> + ?Sized>(s: &T, id: I, r: Result<bool>) -> bool {
    &&& (r matches Ok(b) ==> b == s.spec_keys().dom().contains(id))
    &&& (s.spec_connected() ==> r is Ok)
    &&& (r matches Err(e) ==> e is StoreDisconnected && !s.spec_connected())
}

/// Everything `get_signer` may return on a store `s` when asked for `id`.
pub open spec fn spec_get_signer_post<
    K: SignatureScheme,
    I,
    T: StoreView<I> + ?Sized,
    S: Signer<K, KeyId = I>,
>(s: &T, id: I, r: Result<S>) -> bool {
    &&& (r matches Ok(sg) ==> {
        &&& s.spec_keys().dom().contains(id)
        &&& sg.spec_public_key() == s.spec_keys()[id]
        &&& sg.spec_key_id() == id
    })
    &&& (s.spec_connected() && s.spec_keys().dom().contains(id) ==> r is Ok)
    &&& (r matches Err(e) ==> {
        ||| (e is KeyNotFound && !s.spec_keys().dom().contains(id))
        ||| (e is StoreDisconnected && !s.spec_connected())
    })
}

/// Capability to create a new key pair under the scheme `K`, persisting it
/// in the backend under a fresh, backend-chosen identifier.
///
/// Generation is not idempotent: two calls create two distinct keys even
/// with identical options.
pub trait KeyGenerate<K: SignatureScheme, I>: StoreView<I> {
    /// Backend-defined configuration governing key generation, with a
    /// well-defined default.
    type Options: Default;

    /// Which option values this backend supports.  Supplying an unsupported
    /// value is the one way to earn `InvalidOptions`.
    spec fn spec_options_ok(options: &Self::Options) -> bool;

    /// Creates a new key pair with default options.  Equivalent to
    /// [`Self::generate_key_with_options`] with [`Default::default`]: a key
    /// pair obtained here carries exactly the guarantees of
    /// [`spec_generate_ok`], the same as with any explicit options.
    fn generate_key(&mut self) -> (r: Result<(I, K::PublicKey)>)
        ensures
            (r matches Ok((id, pk)) ==> spec_generate_ok::<K, I, Self>(
                old(self),
                final(self),
                id,
                pk@,
            )),
            (r matches Err(e) ==> {
                &&& final(self).spec_keys() == old(self).spec_keys()
                &&& (e is InvalidOptions || (e is StoreDisconnected && !old(
                    self,
                ).spec_connected()))
                &&& (e is InvalidOptions ==> exists|o: Self::Options|
                    #[trigger] call_ensures(Self::Options::default, (), o)
                        && !Self::spec_options_ok(&o))
            }),
    {
        let options = Self::Options::default();
        let ghost chosen = options;
        let r = self.generate_key_with_options(options);
        proof {
            if r matches Err(ref e) && e is InvalidOptions {
                assert(call_ensures(Self::Options::default, (), chosen)
                    && !Self::spec_options_ok(&chosen));
            }
        }
        r
    }

    /// Creates a new key pair governed by the given options.  Succeeds
    /// whenever the store is reachable and the options are supported; a
    /// failure changes nothing.
    fn generate_key_with_options(&mut self, options: Self::Options) -> (r: Result<
        (I, K::PublicKey),
    >)
        ensures
            (r matches Ok((id, pk)) ==> spec_generate_ok::<K, I, Self>(
                old(self),
                final(self),
                id,
                pk@,
            )),
            old(self).spec_connected() && Self::spec_options_ok(&options) ==> r is Ok,
            (r matches Err(e) ==> {
                &&& final(self).spec_keys() == old(self).spec_keys()
                &&& {
                    ||| (e is InvalidOptions && !Self::spec_options_ok(&options))
                    ||| (e is StoreDisconnected && !old(self).spec_connected())
                }
            }),
    ;
}

/// Capability to look a key up and obtain a [`Signer`] bound to it.
///
/// Returns a capability, not a signature: callers who sign many payloads
/// pay the lookup cost once.
pub trait KeySign<K: SignatureScheme, I>: StoreView<I> {
    /// The signer type this backend hands out.
    type SignerT: Signer<K, KeyId = I>;

    /// Looks up `key_id` and, if it names an existing key, returns a signer
    /// bound to that key.  Fails with `KeyNotFound` exactly when the
    /// identifier is unknown, with `StoreDisconnected` only when the store
    /// is unreachable.
    fn get_signer(&self, key_id: &I) -> (r: Result<Self::SignerT>)
        ensures
            spec_get_signer_post::<K, I, Self, Self::SignerT>(self, *key_id, r),
    ;
}

/// Capability to remove a key pair from the backend.
pub trait KeyDelete<I>: StoreView<I> {
    /// Irreversibly destroys the key pair named by `key_id`.  Succeeds
    /// exactly on identifiers the store holds (deleting an already absent
    /// key is `KeyNotFound`, not silent success) while the store is
    /// reachable; a failure changes nothing.
    fn delete(&mut self, key_id: &I) -> (r: Result<()>)
        ensures
            r is Ok ==> {
                &&& old(self).spec_keys().dom().contains(*key_id)
                &&& final(self).spec_keys() == old(self).spec_keys().remove(*key_id)
            },
            old(self).spec_connected() && old(self).spec_keys().dom().contains(*key_id)
                ==> r is Ok,
            (r matches Err(e) ==> {
                &&& final(self).spec_keys() == old(self).spec_keys()
                &&& {
                    ||| (e is KeyNotFound && !old(self).spec_keys().dom().contains(*key_id))
                    ||| (e is StoreDisconnected && !old(self).spec_connected())
                }
            }),
    ;
}

/// Capability to ask whether an identifier currently names a key.
pub trait KeyExist<I>: StoreView<I> {
    /// Pure predicate on the store's contents.  Absence is a valid `false`
    /// result, never an error: the only failure is an unreachable store.
    fn exist(&self, key_id: &I) -> (r: Result<bool>)
        ensures
            spec_exist_post::<I, Self>(self, *key_id, r),
    ;
}

/// Capability to fetch the public key of an existing identifier without
/// creating a signer.
pub trait KeyGet<K: SignatureScheme, I>: StoreView<I> {
    /// Returns the public counterpart of the key named by `key_id`.  Fails
    /// with `KeyNotFound` exactly when the identifier is unknown.
    fn public_key(&self, key_id: &I) -> (r: Result<K::PublicKey>)
        ensures
            (r matches Ok(pk) ==> {
                &&& self.spec_keys().dom().contains(*key_id)
                &&& pk@ == self.spec_keys()[*key_id]
            }),
            self.spec_connected() && self.spec_keys().dom().contains(*key_id) ==> r is Ok,
            (r matches Err(e) ==> {
                ||| (e is KeyNotFound && !self.spec_keys().dom().contains(*key_id))
                ||| (e is StoreDisconnected && !self.spec_connected())
            }),
    ;
}

/// The full key-store contract: the conjunction of the generate, sign,
/// delete and exist capabilities over one store.
///
/// No new methods: call sites that need full functionality require one
/// bound instead of four, while minimal backends — say, a hardware signer
/// that only ever signs — implement only the subset they support.
pub trait KeysStorage<K: SignatureScheme, I>: KeyGenerate<K, I> + KeySign<K, I> + KeyDelete<
    I,
> + KeyExist<I> {

}

impl<T, K, I> KeysStorage<K, I> for T where
    T: KeyGenerate<K, I> + KeySign<K, I> + KeyDelete<I> + KeyExist<I>,
    K: SignatureScheme,
 {

}

/// Law: a freshly generated key is immediately visible.  After a successful
/// generation of `id`, the store holds `id`; while the store is reachable,
/// `exist` can only answer `Ok(true)` for it, and `get_signer` must succeed
/// and hand out a signer bound to `id` and to the returned public key.
pub proof fn lemma_generated_key_available<K: SignatureScheme, I, T: KeysStorage<K, I>>(
    pre: T,
    post: T,
    id: I,
    pk_bytes: Seq<u8>,
)
    requires
        spec_generate_ok::<K, I, T>(&pre, &post, id, pk_bytes),
    ensures
        post.spec_keys().dom().contains(id),
        post.spec_keys()[id] == pk_bytes,
        forall|r: Result<bool>|
            #[trigger] spec_exist_post::<I, T>(&post, id, r) && post.spec_connected() ==> r
                == Result::<bool>::Ok(true),
        forall|r: Result<T::SignerT>|
            #[trigger] spec_get_signer_post::<K, I, T, T::SignerT>(&post, id, r) ==> {
                &&& post.spec_connected() ==> r is Ok
                &&& (r matches Ok(sg) ==> sg.spec_public_key() == pk_bytes
                    && sg.spec_key_id() == id)
            },
{
}

/// Law: a deleted key is gone.  After a successful deletion of `id`, the
/// store no longer holds `id`; `exist` can only answer `Ok(false)` for it
/// while the store is reachable, and `get_signer` cannot succeed for it —
/// while the store is reachable its failure can only be `KeyNotFound`.
pub proof fn lemma_deleted_key_gone<K: SignatureScheme, I, T: KeysStorage<K, I>>(
    pre: T,
    post: T,
    id: I,
)
    requires
        pre.spec_keys().dom().contains(id),
        post.spec_keys() == pre.spec_keys().remove(id),
    ensures
        !post.spec_keys().dom().contains(id),
        forall|r: Result<bool>|
            #[trigger] spec_exist_post::<I, T>(&post, id, r) && post.spec_connected() ==> r
                == Result::<bool>::Ok(false),
        forall|r: Result<T::SignerT>|
            #[trigger] spec_get_signer_post::<K, I, T, T::SignerT>(&post, id, r) ==> {
                &&& !(r is Ok)
                &&& (r matches Err(e) ==> (post.spec_connected() ==> e is KeyNotFound))
            },
{
}

/// Law: generation mints fresh identifiers.  Two successful generations in
/// sequence — whichever entry point each used — return distinct
/// identifiers, and both public keys are well formed under the scheme.
pub proof fn lemma_generated_identifiers_distinct<K: SignatureScheme, I, T: StoreView<I>>(
    s0: T,
    s1: T,
    s2: T,
    id1: I,
    pk1: Seq<u8>,
    id2: I,
    pk2: Seq<u8>,
)
    requires
        spec_generate_ok::<K, I, T>(&s0, &s1, id1, pk1),
        spec_generate_ok::<K, I, T>(&s1, &s2, id2, pk2),
    ensures
        id1 != id2,
        K::spec_pk_wf(pk1),
        K::spec_pk_wf(pk2),
{
}

} // verus!
