//! Password-based key derivation: from one password and the salt that the
//! server issued, a master key that stays with the client and an
//! authentication key that is sent to the server.

use super::utils::{
    hex_encode, hex_lower, pbkdf2_hmac, run_pbkdf2, run_sha512, sha512_digest, HashAlgorithm,
    MAX_HASH_INPUT,
};
use crate::error::CryptoError;
use vstd::prelude::*;
use vstd::string::*;
use vstd::utf8::*;

verus! {

/// The iteration count used in production.
pub const DEFAULT_ITERATIONS: u32 = 200_000;

/// The length of the derived key used in production, in bits.
pub const DEFAULT_BIT_LENGTH: usize = 512;

/// The shortest derived key that is accepted, in bits.
pub const MIN_BIT_LENGTH: usize = 128;

/// The two secrets that one derivation gives, both as lowercase hexadecimal
/// text.
pub struct DerivedSecrets {
    /// The first half of the derived key: kept by the client, never sent.
    pub master_key: String,
    /// The digest of the second half: the key that authenticates the client
    /// to the server.
    pub derived_password: String,
}

/// The master key in a derived key written as hexadecimal text: its first
/// half, as it stands.
pub open spec fn master_key_of(derived_hex: Seq<char>) -> Seq<char> {
    derived_hex.subrange(0, derived_hex.len() as int / 2)
}

/// The authentication key in a derived key written as hexadecimal text: the
/// SHA-512 digest of its second half, taken as text, in hexadecimal.
pub open spec fn authentication_key_of(derived_hex: Seq<char>) -> Seq<char> {
    hex_lower(
        sha512_digest(
            encode_utf8(derived_hex.subrange(derived_hex.len() as int / 2, derived_hex.len() as int)),
        ),
    )
}

/// The derived key of `password` and `salt` as hexadecimal text.
pub open spec fn derived_hex(
    password: Seq<char>,
    salt: Seq<char>,
    iterations: u32,
    bit_length: nat,
) -> Seq<char> {
    hex_lower(
        pbkdf2_hmac(
            HashAlgorithm::Sha512,
            iterations,
            encode_utf8(salt),
            encode_utf8(password),
            bit_length / 8,
        ),
    )
}

/// Why no secrets are derived from these parameters, or `None` where they
/// are. A zero iteration count is named first; then a length under
/// `MIN_BIT_LENGTH` or one that does not split into two halves of whole
/// bytes; then inputs beyond what the primitive takes.
pub open spec fn derivation_refusal(
    password: Seq<char>,
    salt: Seq<char>,
    iterations: u32,
    bit_length: nat,
) -> Option<CryptoError> {
    if iterations == 0 {
        Some(CryptoError::InvalidIterationCount)
    } else if bit_length < MIN_BIT_LENGTH || bit_length % 16 != 0 {
        Some(CryptoError::InvalidConfiguration)
    } else if bit_length / 8 > HashAlgorithm::Sha512.spec_max_derived_len() || encode_utf8(
        password,
    ).len() > MAX_HASH_INPUT || encode_utf8(salt).len() > MAX_HASH_INPUT {
        Some(CryptoError::DerivationFailure)
    } else {
        None
    }
}

/// What a derivation from these parameters returns: the refusal where there
/// is one, and else the two secrets cut from the derived key.
pub open spec fn derivation_outcome(
    password: Seq<char>,
    salt: Seq<char>,
    iterations: u32,
    bit_length: nat,
    outcome: Result<DerivedSecrets, CryptoError>,
) -> bool {
    match outcome {
        Ok(secrets) => {
            &&& derivation_refusal(password, salt, iterations, bit_length) is None
            &&& secrets.master_key@ == master_key_of(
                derived_hex(password, salt, iterations, bit_length),
            )
            &&& secrets.derived_password@ == authentication_key_of(
                derived_hex(password, salt, iterations, bit_length),
            )
        },
        Err(e) => derivation_refusal(password, salt, iterations, bit_length) == Some(e),
    }
}

/// Hexadecimal text is ASCII.
pub proof fn lemma_hex_is_ascii(bytes: Seq<u8>)
    ensures
        is_ascii_chars(hex_lower(bytes)),
        encode_utf8(hex_lower(bytes)).len() == 2 * bytes.len(),
{
    let text = hex_lower(bytes);
    assert forall|i: int| 0 <= i < text.len() implies '\0' <= #[trigger] text[i] <= '\u{7f}' by {
        let b = bytes[i / 2] as int;
        assert(0 <= b / 16 < 16 && 0 <= b % 16 < 16);
    }
    is_ascii_chars_encode_utf8(text);
}

/// Derives `bit_length / 8` bytes from `password` and `salt` with PBKDF2 over
/// HMAC with `hash`, in `iterations` rounds.
pub fn derive_key_from_password(
    password: String,
    salt: String,
    hash: HashAlgorithm,
    iterations: u32,
    bit_length: usize,
) -> (key: Result<Vec<u8>, CryptoError>)
    ensures
        match key {
            Ok(bytes) => {
                &&& super::utils::pbkdf2_refusal(
                    encode_utf8(password@),
                    encode_utf8(salt@),
                    hash,
                    iterations,
                    bit_length as nat,
                ) is None
                &&& bytes@ == pbkdf2_hmac(
                    hash,
                    iterations,
                    encode_utf8(salt@),
                    encode_utf8(password@),
                    bit_length as nat / 8,
                )
                &&& bytes@.len() == bit_length / 8
            },
            Err(e) => super::utils::pbkdf2_refusal(
                encode_utf8(password@),
                encode_utf8(salt@),
                hash,
                iterations,
                bit_length as nat,
            ) == Some(e),
        },
{
    run_pbkdf2(password, salt, hash, iterations, bit_length)
}

/// Cuts the two secrets from a derived key: writes it as hexadecimal text,
/// keeps the first half of that text as the master key, and hashes the second
/// half, as text, into the authentication key.
pub fn split_derived_key(derived: &[u8]) -> (secrets: DerivedSecrets)
    requires
        2 * derived@.len() <= usize::MAX,
        derived@.len() <= MAX_HASH_INPUT,
    ensures
        secrets.master_key@ == master_key_of(hex_lower(derived@)),
        secrets.derived_password@ == authentication_key_of(hex_lower(derived@)),
        secrets.master_key@.len() == derived@.len(),
        secrets.derived_password@.len() == 128,
{
    let drive_key = hex_encode(derived);
    let half = derived.len();
    proof {
        lemma_hex_is_ascii(derived@);
        let tail = drive_key@.subrange(half as int, 2 * half);
        assert(is_ascii_chars(tail));
        is_ascii_chars_encode_utf8(tail);
    }
    let text = drive_key.as_str();
    let master_key = text.substring_ascii(0, half);
    let derived_password = text.substring_ascii(half, 2 * half);
    DerivedSecrets {
        master_key: master_key.to_owned(),
        derived_password: run_sha512(derived_password.to_owned()),
    }
}

/// Derives the master key and the authentication key from `password` and
/// `salt`: PBKDF2 over HMAC-SHA-512 in `iterations` rounds gives
/// `bit_length / 8` bytes, which are then cut in two.
pub fn derive_auth_and_master(
    password: String,
    salt: String,
    iterations: u32,
    bit_length: usize,
) -> (outcome: Result<DerivedSecrets, CryptoError>)
    ensures
        derivation_outcome(password@, salt@, iterations, bit_length as nat, outcome),
        outcome matches Ok(secrets) ==> secrets.master_key@.len() == bit_length / 8
            && secrets.derived_password@.len() == 128,
{
    if iterations == 0 {
        return Err(CryptoError::InvalidIterationCount);
    }
    if bit_length < MIN_BIT_LENGTH || bit_length % 16 != 0 {
        return Err(CryptoError::InvalidConfiguration);
    }
    match run_pbkdf2(password, salt, HashAlgorithm::Sha512, iterations, bit_length) {
        Ok(derived) => Ok(split_derived_key(derived.as_slice())),
        Err(e) => Err(e),
    }
}

/// Derives the master key and the authentication key from `raw_password` and
/// `salt` with the production parameters.
pub fn generate_password_and_master_key(raw_password: String, salt: String) -> (outcome: Result<
    DerivedSecrets,
    CryptoError,
>)
    ensures
        derivation_outcome(
            raw_password@,
            salt@,
            DEFAULT_ITERATIONS,
            DEFAULT_BIT_LENGTH as nat,
            outcome,
        ),
        outcome is Err <==> encode_utf8(raw_password@).len() > MAX_HASH_INPUT || encode_utf8(
            salt@,
        ).len() > MAX_HASH_INPUT,
{
    derive_auth_and_master(raw_password, salt, DEFAULT_ITERATIONS, DEFAULT_BIT_LENGTH)
}

/// Derivation is a function of its inputs: whatever two derivations from the
/// same password, salt, iteration count and length return, they return the
/// same.
pub proof fn lemma_derivation_deterministic(
    password: Seq<char>,
    salt: Seq<char>,
    iterations: u32,
    bit_length: nat,
    first: Result<DerivedSecrets, CryptoError>,
    second: Result<DerivedSecrets, CryptoError>,
)
    requires
        derivation_outcome(password, salt, iterations, bit_length, first),
        derivation_outcome(password, salt, iterations, bit_length, second),
    ensures
        match (first, second) {
            (Ok(a), Ok(b)) => a.master_key@ == b.master_key@ && a.derived_password@
                == b.derived_password@,
            (Err(a), Err(b)) => a == b,
            _ => false,
        },
{
}

} // verus!
