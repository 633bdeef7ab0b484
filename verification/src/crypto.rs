//! Key derivation and the authenticated metadata envelope.

pub mod derivation;
pub mod keys;
pub mod metadata;
pub mod utils;

pub use derivation::{
    derive_auth_and_master, derive_key_from_password, generate_password_and_master_key,
    DerivedSecrets,
};
pub use keys::{Key, Nonce};
