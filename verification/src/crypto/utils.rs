//! The cryptographic primitives and text encodings that the library builds
//! on. Each primitive is reached through one private function whose contract
//! is taken on trust; everything else here is proved against those contracts.

use super::keys::Nonce;
use crate::error::CryptoError;
use aes_gcm::aead::rand_core::RngCore;
use aes_gcm::aead::{Aead, OsRng};
use aes_gcm::{Aes256Gcm, KeyInit};
use base64::prelude::{Engine, BASE64_STANDARD};
use std::num::NonZeroU32;
use vstd::prelude::*;
use vstd::utf8::*;

verus! {

/// The longest plaintext, in bytes, that AES-GCM seals under one nonce.
pub const AES_GCM_MAX_PLAINTEXT: u64 = 0x10_0000_0000;

/// The longest input, in bytes, that is handed to a hash function. The hash
/// functions count their input in bits in a 64-bit counter; this bound leaves
/// room for the framing that HMAC adds.
pub const MAX_HASH_INPUT: u64 = 0x1000_0000_0000_0000;

/// The pseudorandom function that PBKDF2 iterates: HMAC over one of these
/// hash functions.
#[derive(Clone, Copy, Debug, PartialEq, Eq, Structural)]
pub enum HashAlgorithm {
    Sha1,
    Sha256,
    Sha384,
    Sha512,
}

impl HashAlgorithm {
    /// The length of one digest in bytes.
    pub open spec fn spec_digest_len(self) -> nat {
        match self {
            HashAlgorithm::Sha1 => 20,
            HashAlgorithm::Sha256 => 32,
            HashAlgorithm::Sha384 => 48,
            HashAlgorithm::Sha512 => 64,
        }
    }

    /// The length of one digest in bytes.
    pub fn digest_len(self) -> (len: u64)
        ensures
            len == self.spec_digest_len(),
    {
        match self {
            HashAlgorithm::Sha1 => 20,
            HashAlgorithm::Sha256 => 32,
            HashAlgorithm::Sha384 => 48,
            HashAlgorithm::Sha512 => 64,
        }
    }

    /// The longest key, in bytes, that PBKDF2 derives with this hash
    /// function: one digest for each value of its 32-bit block counter.
    pub open spec fn spec_max_derived_len(self) -> nat {
        0xFFFF_FFFF * self.spec_digest_len()
    }

    /// The longest key, in bytes, that PBKDF2 derives with this hash
    /// function.
    pub fn max_derived_len(self) -> (len: u64)
        ensures
            len == self.spec_max_derived_len(),
    {
        0xFFFF_FFFF * self.digest_len()
    }
}

/// The key that PBKDF2 derives with HMAC over `hash`, from the password
/// `secret` and `salt`, in `iterations` rounds, `length` bytes long.
pub uninterp spec fn pbkdf2_hmac(
    hash: HashAlgorithm,
    iterations: u32,
    salt: Seq<u8>,
    secret: Seq<u8>,
    length: nat,
) -> Seq<u8>;

/// The SHA-512 digest of `data`.
pub uninterp spec fn sha512_digest(data: Seq<u8>) -> Seq<u8>;

/// The base64 text of `data`, in the standard alphabet with padding, as
/// ASCII bytes.
pub uninterp spec fn base64_standard(data: Seq<u8>) -> Seq<u8>;

/// The bytes that `text` stands for as base64 in the standard alphabet with
/// padding, or `None` where `text` is no such encoding.
pub uninterp spec fn base64_standard_decoded(text: Seq<u8>) -> Option<Seq<u8>>;

/// The ciphertext followed by the 16-byte tag that AES-256-GCM produces for
/// `plaintext` under `key` and `nonce`, with no associated data.
pub uninterp spec fn aes256_gcm_sealed(key: Seq<u8>, nonce: Seq<u8>, plaintext: Seq<u8>) -> Seq<u8>;

/// The plaintext that AES-256-GCM recovers from `sealed` under `key` and
/// `nonce`, with no associated data, or `None` where the tag does not
/// verify.
pub uninterp spec fn aes256_gcm_opened(key: Seq<u8>, nonce: Seq<u8>, sealed: Seq<u8>) -> Option<
    Seq<u8>,
>;

/// The sixteen lowercase hexadecimal digits, in order of value.
pub open spec fn hex_digits() -> Seq<char> {
    seq!['0', '1', '2', '3', '4', '5', '6', '7', '8', '9', 'a', 'b', 'c', 'd', 'e', 'f']
}

/// The lowercase hexadecimal text of `bytes`: two digits per byte, the high
/// four bits first.
pub open spec fn hex_lower(bytes: Seq<u8>) -> Seq<char> {
    Seq::new(
        2 * bytes.len(),
        |i: int|
            if i % 2 == 0 {
                hex_digits()[bytes[i / 2] as int / 16]
            } else {
                hex_digits()[bytes[i / 2] as int % 16]
            },
    )
}

/// Calls `ring::pbkdf2::derive`, which overwrites `out` with the PBKDF2 key
/// of that length. The call aborts on a zero iteration count, on an output
/// longer than `hash.max_derived_len()` and on inputs too long to hash; the
/// preconditions leave those out.
#[verifier::external_body]
fn pbkdf2_derive(
    hash: HashAlgorithm,
    iterations: u32,
    salt: &[u8],
    secret: &[u8],
    out: &mut Vec<u8>,
)
    requires
        iterations > 0,
        salt@.len() <= MAX_HASH_INPUT,
        secret@.len() <= MAX_HASH_INPUT,
        old(out)@.len() <= hash.spec_max_derived_len(),
    ensures
        final(out)@ == pbkdf2_hmac(hash, iterations, salt@, secret@, old(out)@.len()),
        final(out)@.len() == old(out)@.len(),
{
    let algorithm = match hash {
        HashAlgorithm::Sha1 => ring::pbkdf2::PBKDF2_HMAC_SHA1,
        HashAlgorithm::Sha256 => ring::pbkdf2::PBKDF2_HMAC_SHA256,
        HashAlgorithm::Sha384 => ring::pbkdf2::PBKDF2_HMAC_SHA384,
        HashAlgorithm::Sha512 => ring::pbkdf2::PBKDF2_HMAC_SHA512,
    };
    ring::pbkdf2::derive(algorithm, NonZeroU32::new(iterations).unwrap(), salt, secret, out);
}

/// Calls `ring::digest::digest` with SHA-512, which returns the 64-byte
/// digest of `data`. The call aborts on an input too long to hash; the
/// precondition leaves that out.
#[verifier::external_body]
fn sha512(data: &[u8]) -> (digest: Vec<u8>)
    requires
        data@.len() <= MAX_HASH_INPUT,
    ensures
        digest@ == sha512_digest(data@),
        digest@.len() == 64,
{
    ring::digest::digest(&ring::digest::SHA512, data).as_ref().to_vec()
}

/// Calls `hex::encode`, which writes each byte as two lowercase hexadecimal
/// digits, the high four bits first. The contract states exactly that text.
#[verifier::external_body]
pub(crate) fn hex_encode(data: &[u8]) -> (text: String)
    ensures
        text@ == hex_lower(data@),
{
    hex::encode(data)
}

/// Calls `encode` of base64's `STANDARD` engine. Besides naming the text, the
/// contract claims that the same engine decodes it to `data` again. The call
/// aborts where the length of the text does not fit in `usize`; the
/// precondition leaves that out.
#[verifier::external_body]
pub(crate) fn base64_encode(data: &[u8]) -> (text: Vec<u8>)
    requires
        data@.len() / 3 * 4 + 4 <= usize::MAX,
    ensures
        text@ == base64_standard(data@),
        base64_standard_decoded(text@) == Some(data@),
{
    BASE64_STANDARD.encode(data).into_bytes()
}

/// Calls `decode` of base64's `STANDARD` engine, which returns the decoded
/// bytes or an error for text that is not padded standard base64.
#[verifier::external_body]
pub(crate) fn base64_decode(text: &[u8]) -> (data: Option<Vec<u8>>)
    ensures
        match data {
            Some(bytes) => base64_standard_decoded(text@) == Some(bytes@),
            None => base64_standard_decoded(text@) is None,
        },
{
    BASE64_STANDARD.decode(text).ok()
}

/// Calls `encrypt` of `Aes256Gcm` with no associated data. It fails exactly
/// on a plaintext longer than `AES_GCM_MAX_PLAINTEXT`. Besides naming the
/// sealed bytes, the contract claims that they are the plaintext's length
/// and a 16-byte tag long, and that opening them under the same key and nonce
/// gives the plaintext back.
#[verifier::external_body]
fn aes256_gcm_seal(data: &[u8], key: &[u8; 32], nonce: &[u8; 12]) -> (sealed: Option<Vec<u8>>)
    ensures
        sealed is Some <==> data@.len() <= AES_GCM_MAX_PLAINTEXT,
        sealed matches Some(bytes) ==> {
            &&& bytes@ == aes256_gcm_sealed(key@, nonce@, data@)
            &&& bytes@.len() == data@.len() + 16
            &&& aes256_gcm_opened(key@, nonce@, bytes@) == Some(data@)
        },
{
    let cipher = Aes256Gcm::new(aes_gcm::Key::<Aes256Gcm>::from_slice(key));
    cipher.encrypt(aes_gcm::Nonce::from_slice(nonce), data).ok()
}

/// Calls `decrypt` of `Aes256Gcm` with no associated data, which returns the
/// plaintext, or an error where the tag does not verify.
#[verifier::external_body]
fn aes256_gcm_open(sealed: &[u8], key: &[u8; 32], nonce: &[u8; 12]) -> (data: Option<Vec<u8>>)
    ensures
        match data {
            Some(bytes) => aes256_gcm_opened(key@, nonce@, sealed@) == Some(bytes@),
            None => aes256_gcm_opened(key@, nonce@, sealed@) is None,
        },
{
    let cipher = Aes256Gcm::new(aes_gcm::Key::<Aes256Gcm>::from_slice(key));
    cipher.decrypt(aes_gcm::Nonce::from_slice(nonce), sealed).ok()
}

/// Calls `fill_bytes` of `OsRng`, the operating system's random generator.
/// Nothing is promised of the bytes. The call aborts where the operating
/// system has no randomness to give.
#[verifier::external_body]
pub(crate) fn os_random<const N: usize>() -> (bytes: [u8; N]) {
    let mut bytes = [0u8; N];
    OsRng.fill_bytes(&mut bytes);
    bytes
}

/// Calls `String::from_utf8`, which accepts exactly the byte sequences that
/// are UTF-8 and returns the text they encode.
#[verifier::external_body]
pub(crate) fn string_from_utf8(bytes: Vec<u8>) -> (text: Option<String>)
    ensures
        text is Some <==> valid_utf8(bytes@),
        text matches Some(s) ==> s@ == decode_utf8(bytes@),
{
    String::from_utf8(bytes).ok()
}

/// The ten decimal digits, in order of value.
pub open spec fn decimal_digits() -> Seq<char> {
    seq!['0', '1', '2', '3', '4', '5', '6', '7', '8', '9']
}

/// The decimal text of a byte, without leading zeros.
pub open spec fn decimal_text(n: u8) -> Seq<char> {
    if n < 10 {
        seq![decimal_digits()[n as int]]
    } else if n < 100 {
        seq![decimal_digits()[n as int / 10], decimal_digits()[n as int % 10]]
    } else {
        seq![
            decimal_digits()[n as int / 100],
            decimal_digits()[n as int / 10 % 10],
            decimal_digits()[n as int % 10],
        ]
    }
}

/// The decimal texts of the bytes, one after the other with nothing between
/// them.
pub open spec fn decimal_concat(bytes: Seq<u8>) -> Seq<char>
    decreases bytes.len(),
{
    if bytes.len() == 0 {
        Seq::empty()
    } else {
        decimal_concat(bytes.drop_last()) + decimal_text(bytes.last())
    }
}

/// The text of one decimal digit.
fn digit_text(d: u8) -> (text: &'static str)
    requires
        d < 10,
    ensures
        text@ == seq![decimal_digits()[d as int]],
{
    proof {
        reveal_strlit("0");
        reveal_strlit("1");
        reveal_strlit("2");
        reveal_strlit("3");
        reveal_strlit("4");
        reveal_strlit("5");
        reveal_strlit("6");
        reveal_strlit("7");
        reveal_strlit("8");
        reveal_strlit("9");
    }
    let text = match d {
        0 => "0",
        1 => "1",
        2 => "2",
        3 => "3",
        4 => "4",
        5 => "5",
        6 => "6",
        7 => "7",
        8 => "8",
        _ => "9",
    };
    assert(text@ =~= seq![decimal_digits()[d as int]]);
    text
}

/// Writes the bytes in decimal, one after the other with nothing between
/// them: `[1, 23, 255]` becomes `"123255"`.
pub fn vec_u8_to_string(vec: Vec<u8>) -> (text: String)
    ensures
        text@ == decimal_concat(vec@),
{
    let mut text = String::new();
    let mut i: usize = 0;
    while i < vec.len()
        invariant
            i <= vec.len(),
            text@ == decimal_concat(vec@.take(i as int)),
        decreases vec.len() - i,
    {
        let n = vec[i];
        let ghost before = text@;
        if n >= 100 {
            text.append(digit_text(n / 100));
            text.append(digit_text(n / 10 % 10));
        } else if n >= 10 {
            text.append(digit_text(n / 10));
        }
        text.append(digit_text(n % 10));
        proof {
            assert(text@ =~= before + decimal_text(n));
            assert(vec@.take(i + 1).drop_last() =~= vec@.take(i as int));
        }
        i += 1;
    }
    assert(vec@.take(i as int) =~= vec@);
    text
}

/// The SHA-512 digest of the UTF-8 bytes of `data`, in lowercase
/// hexadecimal.
pub fn run_sha512(data: String) -> (digest: String)
    requires
        encode_utf8(data@).len() <= MAX_HASH_INPUT,
    ensures
        digest@ == hex_lower(sha512_digest(encode_utf8(data@))),
        digest@.len() == 128,
{
    let hash = sha512(data.as_str().as_bytes());
    hex_encode(hash.as_slice())
}

/// A fresh 32-byte key from the operating system's random generator.
pub fn generate_random_key() -> (key: [u8; 32])
    ensures
        key@.len() == 32,
{
    os_random::<32>()
}

/// Seals `data` with AES-256-GCM under `key` and `nonce`, with no associated
/// data. The result is the ciphertext followed by the 16-byte tag. The cipher
/// refuses exactly the plaintexts longer than `AES_GCM_MAX_PLAINTEXT`.
pub fn run_aes_gcm_encryprion(data: &[u8], key: &[u8; 32], nonce: &Nonce) -> (sealed: Result<
    Vec<u8>,
    CryptoError,
>)
    ensures
        match sealed {
            Ok(bytes) => {
                &&& data@.len() <= AES_GCM_MAX_PLAINTEXT
                &&& bytes@ == aes256_gcm_sealed(key@, nonce@, data@)
                &&& bytes@.len() == data@.len() + 16
                &&& aes256_gcm_opened(key@, nonce@, bytes@) == Some(data@)
            },
            Err(e) => e == CryptoError::EncryptionFailure && data@.len() > AES_GCM_MAX_PLAINTEXT,
        },
{
    match aes256_gcm_seal(data, key, nonce.as_array()) {
        Some(bytes) => Ok(bytes),
        None => Err(CryptoError::EncryptionFailure),
    }
}

/// Opens `encryption_data`, a ciphertext followed by its tag, with
/// AES-256-GCM under `key` and `nonce`, with no associated data. Where the
/// tag does not verify nothing of the plaintext is returned.
pub fn run_aes_gcm_decryption(encryption_data: &[u8], key: &[u8; 32], nonce: &Nonce) -> (data:
    Result<Vec<u8>, CryptoError>)
    ensures
        match data {
            Ok(bytes) => aes256_gcm_opened(key@, nonce@, encryption_data@) == Some(bytes@),
            Err(e) => {
                &&& e == CryptoError::AuthenticationFailure
                &&& aes256_gcm_opened(key@, nonce@, encryption_data@) is None
            },
        },
{
    match aes256_gcm_open(encryption_data, key, nonce.as_array()) {
        Some(bytes) => Ok(bytes),
        None => Err(CryptoError::AuthenticationFailure),
    }
}


/// Why PBKDF2 does not run on these parameters, or `None` where it does. A
/// zero iteration count is named first, then a length that is not a whole
/// number of bytes, then an output or an input beyond what the primitive
/// takes.
pub open spec fn pbkdf2_refusal(
    password: Seq<u8>,
    salt: Seq<u8>,
    hash: HashAlgorithm,
    iterations: u32,
    bit_length: nat,
) -> Option<CryptoError> {
    if iterations == 0 {
        Some(CryptoError::InvalidIterationCount)
    } else if bit_length % 8 != 0 {
        Some(CryptoError::InvalidConfiguration)
    } else if bit_length / 8 > hash.spec_max_derived_len() || password.len() > MAX_HASH_INPUT
        || salt.len() > MAX_HASH_INPUT {
        Some(CryptoError::DerivationFailure)
    } else {
        None
    }
}

/// Derives `bit_length / 8` bytes from `password` and `salt` with PBKDF2 over
/// HMAC with `hash`, in `iterations` rounds.
pub fn run_pbkdf2(
    password: String,
    salt: String,
    hash: HashAlgorithm,
    iterations: u32,
    bit_length: usize,
) -> (key: Result<Vec<u8>, CryptoError>)
    ensures
        match key {
            Ok(bytes) => {
                &&& pbkdf2_refusal(
                    encode_utf8(password@),
                    encode_utf8(salt@),
                    hash,
                    iterations,
                    bit_length as nat,
                ) is None
                &&& bytes@ == pbkdf2_hmac(
                    hash,
                    iterations,
                    encode_utf8(salt@),
                    encode_utf8(password@),
                    bit_length as nat / 8,
                )
                &&& bytes@.len() == bit_length / 8
            },
            Err(e) => pbkdf2_refusal(
                encode_utf8(password@),
                encode_utf8(salt@),
                hash,
                iterations,
                bit_length as nat,
            ) == Some(e),
        },
{
    let secret = password.as_str().as_bytes();
    let salt_bytes = salt.as_str().as_bytes();
    if iterations == 0 {
        return Err(CryptoError::InvalidIterationCount);
    }
    if bit_length % 8 != 0 {
        return Err(CryptoError::InvalidConfiguration);
    }
    let length = bit_length / 8;
    if length as u64 > hash.max_derived_len() || secret.len() as u64 > MAX_HASH_INPUT
        || salt_bytes.len() as u64 > MAX_HASH_INPUT {
        return Err(CryptoError::DerivationFailure);
    }
    let mut key = vec![0u8; length];
    pbkdf2_derive(hash, iterations, salt_bytes, secret, &mut key);
    Ok(key)
}


} // verus!
