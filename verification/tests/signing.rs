use fastcrypto::hash::HashFunction;
use key_storage::GetHash;
use key_storage::KeyGenerate;
use key_storage::KeySign;
use key_storage::KeyedHashScheme;
use key_storage::MemoryKeyStore;
use key_storage::Signer;
use key_storage::TransactionData;
use key_storage::TransactionSigner;

#[test]
fn signing_is_deterministic_and_verifies() {
    let mut store = MemoryKeyStore::new();
    let (_id, pk) = store.generate_key().unwrap();
    let signer = store.get_signer(&_id).unwrap();
    let sig1 = signer.sign(b"payload".as_slice()).unwrap();
    let sig2 = signer.sign(b"payload".as_slice()).unwrap();
    assert_eq!(sig1, sig2);
    assert!(KeyedHashScheme::verify(&pk, b"payload".as_slice(), &sig1));
}

#[test]
fn verification_rejects_other_message_and_other_key() {
    let mut store = MemoryKeyStore::new();
    let (id1, pk1) = store.generate_key().unwrap();
    let (_id2, pk2) = store.generate_key().unwrap();
    let signer = store.get_signer(&id1).unwrap();
    let sig = signer.sign(b"message".as_slice()).unwrap();
    assert!(KeyedHashScheme::verify(&pk1, b"message".as_slice(), &sig));
    assert!(!KeyedHashScheme::verify(&pk1, b"other".as_slice(), &sig));
    assert!(!KeyedHashScheme::verify(&pk2, b"message".as_slice(), &sig));
    assert!(!KeyedHashScheme::verify(&pk1, b"message".as_slice(), &vec![0u8; 5]));
}

#[test]
fn signature_matches_keyed_digest() {
    let mut store = MemoryKeyStore::new();
    let (id, pk) = store.generate_key().unwrap();
    let signer = store.get_signer(&id).unwrap();
    let sig = signer.sign(b"abc".as_slice()).unwrap();
    let mut keyed: Vec<u8> = pk.clone();
    keyed.extend_from_slice(b"abc");
    let expected = fastcrypto::hash::Blake2b256::digest(keyed.as_slice());
    assert_eq!(sig.as_slice(), expected.digest.as_slice());
}

#[test]
fn transaction_digest_is_tagged_and_reproducible() {
    let payload = b"canonical transaction bytes".to_vec();
    let tx = TransactionData::new(payload.clone());
    let again = TransactionData::new(payload.clone());
    assert_eq!(tx.get_hash(), again.get_hash());

    let mut tagged: Vec<u8> = vec![0u8, 0u8, 0u8];
    tagged.extend_from_slice(&payload);
    let expected = fastcrypto::hash::Blake2b256::digest(tagged.as_slice());
    assert_eq!(tx.get_hash(), expected.digest);

    let untagged = fastcrypto::hash::Blake2b256::digest(payload.as_slice());
    assert_ne!(tx.get_hash(), untagged.digest);
}

#[test]
fn transaction_signature_is_over_the_canonical_digest() {
    let mut store = MemoryKeyStore::new();
    let (id, pk) = store.generate_key().unwrap();
    let signer = store.get_signer(&id).unwrap();
    let tx = TransactionData::new(b"tx".to_vec());
    let sig = signer.sign_transaction(&tx).unwrap();
    let digest = tx.get_hash();
    assert!(KeyedHashScheme::verify(&pk, digest.as_slice(), &sig));
    let direct = signer.sign(digest.as_slice()).unwrap();
    assert_eq!(sig, direct);
}

#[test]
fn empty_payload_digest_has_32_bytes() {
    let tx = TransactionData::new(Vec::new());
    assert_eq!(tx.get_hash().len(), 32);
    assert_eq!(tx.bytes().len(), 0);
}
