//! The failures that the cryptographic operations report.

use vstd::prelude::*;

verus! {

/// Why a derivation, an encryption or a decryption did not produce a result.
#[derive(Clone, Copy, Debug, PartialEq, Eq, Structural)]
pub enum CryptoError {
    /// The iteration count is zero.
    InvalidIterationCount,
    /// The requested output length cannot be split into two equal halves of
    /// whole bytes, or is too short.
    InvalidConfiguration,
    /// The key-derivation primitive cannot work on inputs of this size.
    DerivationFailure,
    /// The cipher cannot seal a plaintext of this size.
    EncryptionFailure,
    /// The envelope is shorter than its fixed header, or its payload is not
    /// base64.
    MalformedEnvelope,
    /// The decrypted bytes are not UTF-8.
    MalformedPlaintext,
    /// The authentication tag does not match: wrong key or altered data.
    AuthenticationFailure,
    /// The envelope does not begin with the supported version tag.
    UnsupportedEnvelopeVersion,
}

} // verus!
