//! Security core of a local credential vault: master-password key derivation,
//! the vault open/authenticate state machine, and per-field authenticated
//! encryption of secret values.

pub mod db;
pub mod field_cipher;
pub mod key_derivation;
pub mod model;

pub use db::{keys_match, DBManager, LoginStep, ProtectionMode, RegistrationPlan, VaultError, VaultSession, VaultState};
pub use field_cipher::{fresh_nonce, open_field, seal_with_nonce, CipherError};
pub use key_derivation::{KeyError, KeyManager, SaltFile};
pub use model::{new_record_id, EntryError, PasswordEntry};
