//! Client-side cryptography for an end-to-end encrypted storage service:
//! password-based key derivation and the authenticated metadata envelope,
//! together with the plain data of the HTTP transport around them.

pub mod crypto;
pub mod error;
pub mod http;
