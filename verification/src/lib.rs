//! A pluggable key-management abstraction layer.
//!
//! Narrow, independently implementable capability traits let application code
//! generate, use, and retire cryptographic keys held in a backend-defined key
//! store, without coupling the application to one signature scheme or storage
//! backend.  Every capability carries a contract over an abstract view of the
//! store, so that what a backend must guarantee — and what a caller may rely
//! on — is stated once, next to the operation.

mod error;
mod hash;
mod key_signature_set;
mod memory;
mod signature_scheme;
mod signer;
mod storage;
mod transaction_signer;

pub use error::Error;
pub use error::Result;
pub use hash::blake2b256_of;
pub use hash::lemma_transaction_digest_deterministic;
pub use hash::spec_intent_message;
pub use hash::TransactionData;
pub use hash::INTENT_APP_ID;
pub use hash::INTENT_SCOPE_TRANSACTION_DATA;
pub use hash::INTENT_VERSION;
pub use hash::GetHash;
pub use key_signature_set::KeySignatureSet;
pub use memory::lemma_sign_verify_roundtrip;
pub use memory::KeyedHashScheme;
pub use memory::MemoryKeyStore;
pub use memory::MemoryOptions;
pub use memory::MemorySigner;
pub use signature_scheme::SignatureScheme;
pub use signer::Signer;
pub use storage::lemma_deleted_key_gone;
pub use storage::lemma_generated_identifiers_distinct;
pub use storage::lemma_generated_key_available;
pub use storage::spec_exist_post;
pub use storage::spec_generate_ok;
pub use storage::spec_get_signer_post;
pub use storage::KeyDelete;
pub use storage::KeyExist;
pub use storage::KeyGenerate;
pub use storage::KeyGet;
pub use storage::KeySign;
pub use storage::KeysStorage;
pub use storage::StoreView;
pub use transaction_signer::TransactionSigner;
