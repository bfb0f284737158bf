use key_storage::Error;
use key_storage::KeyDelete;
use key_storage::KeyExist;
use key_storage::KeyGenerate;
use key_storage::KeyGet;
use key_storage::KeySign;
use key_storage::KeyedHashScheme;
use key_storage::MemoryKeyStore;
use key_storage::MemoryOptions;
use key_storage::Signer;

#[test]
fn generate_sign_verify_delete_scenario() {
    let mut store = MemoryKeyStore::new();
    let (id, pk) = store.generate_key().unwrap();
    let signer = store.get_signer(&id).unwrap();
    let sig = signer.sign(b"hello".as_slice()).unwrap();
    assert!(KeyedHashScheme::verify(&pk, b"hello".as_slice(), &sig));
    store.delete(&id).unwrap();
    assert_eq!(store.exist(&id).unwrap(), false);
    let r = store.get_signer(&id);
    assert!(matches!(r, Err(Error::KeyNotFound(_))));
}

#[test]
fn generated_key_exists_and_has_signer() {
    let mut store = MemoryKeyStore::new();
    let (id, pk) = store.generate_key().unwrap();
    assert!(store.exist(&id).unwrap());
    let signer = store.get_signer(&id).unwrap();
    assert_eq!(*signer.key_id(), id);
    assert_eq!(signer.public_key().unwrap(), pk);
}

#[test]
fn deleted_key_is_gone_and_delete_is_not_idempotent() {
    let mut store = MemoryKeyStore::new();
    let (id, _pk) = store.generate_key().unwrap();
    assert!(store.delete(&id).is_ok());
    assert!(!store.exist(&id).unwrap());
    assert!(matches!(store.get_signer(&id), Err(Error::KeyNotFound(_))));
    assert!(matches!(store.delete(&id), Err(Error::KeyNotFound(_))));
}

#[test]
fn default_options_match_explicit_default() {
    let mut store = MemoryKeyStore::new();
    let (id1, pk1) = store.generate_key().unwrap();
    let (id2, pk2) = store
        .generate_key_with_options(MemoryOptions::default())
        .unwrap();
    assert_ne!(id1, id2);
    assert_eq!(pk1.len(), 32);
    assert_eq!(pk2.len(), 32);
}

#[test]
fn caller_supplied_material_is_installed() {
    let mut store = MemoryKeyStore::new();
    let material = vec![7u8; 32];
    let (id, pk) = store
        .generate_key_with_options(MemoryOptions {
            key_material: Some(material.clone()),
        })
        .unwrap();
    assert_eq!(pk, material);
    assert_eq!(store.public_key(&id).unwrap(), material);
}

#[test]
fn wrong_material_length_is_invalid_options() {
    let mut store = MemoryKeyStore::new();
    let r = store.generate_key_with_options(MemoryOptions {
        key_material: Some(vec![7u8; 31]),
    });
    assert!(matches!(r, Err(Error::InvalidOptions)));
}

#[test]
fn exhausted_identifier_space_is_store_disconnected() {
    let mut store = MemoryKeyStore::starting_at(u64::MAX);
    let r = store.generate_key();
    assert!(matches!(r, Err(Error::StoreDisconnected(_))));
}

#[test]
fn public_key_lookup_of_absent_key_fails() {
    let store = MemoryKeyStore::new();
    let missing: u64 = 5;
    assert!(matches!(
        store.public_key(&missing),
        Err(Error::KeyNotFound(_))
    ));
}

#[test]
fn identifiers_start_where_requested() {
    let mut store = MemoryKeyStore::starting_at(10);
    let (id, _pk) = store.generate_key().unwrap();
    assert_eq!(id, 10);
}

#[test]
fn signer_survives_deletion_but_store_does_not_serve_it() {
    let mut store = MemoryKeyStore::new();
    let (id, pk) = store.generate_key().unwrap();
    let signer = store.get_signer(&id).unwrap();
    store.delete(&id).unwrap();
    let sig = signer.sign(b"after delete".as_slice()).unwrap();
    assert!(KeyedHashScheme::verify(&pk, b"after delete".as_slice(), &sig));
    assert!(matches!(store.get_signer(&id), Err(Error::KeyNotFound(_))));
}
