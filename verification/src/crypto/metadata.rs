//! The authenticated metadata envelope: a version tag, the nonce as twelve
//! raw bytes, and the sealed metadata in base64.
//!
//! The nonce is random bytes, so an envelope is a byte buffer and not text.

use super::keys::{Key, Nonce};
use super::utils::{
    aes256_gcm_opened, aes256_gcm_sealed, base64_decode, base64_encode, base64_standard,
    base64_standard_decoded, run_aes_gcm_decryption, run_aes_gcm_encryprion, string_from_utf8,
    AES_GCM_MAX_PLAINTEXT,
};
use crate::error::CryptoError;
use vstd::prelude::*;
use vstd::slice::*;
use vstd::string::*;
use vstd::utf8::*;

verus! {

/// The version tag that every envelope begins with.
pub const METADATA_IDENTIFIER: &'static str = "002";

/// The length of the version tag in bytes.
pub const VERSION_LEN: usize = 3;

/// The length of what precedes the payload: the version tag and the nonce.
pub const HEADER_LEN: usize = 15;

/// The bytes of the version tag: the ASCII text `002`.
pub open spec fn version_tag() -> Seq<u8> {
    seq![0x30u8, 0x30u8, 0x32u8]
}

/// The envelope that carries `payload` under `nonce`: the version tag, the
/// nonce, the payload.
pub open spec fn framed(nonce: Seq<u8>, payload: Seq<u8>) -> Seq<u8> {
    version_tag() + nonce + payload
}

/// The nonce that an envelope of at least `HEADER_LEN` bytes carries.
pub open spec fn nonce_of(envelope: Seq<u8>) -> Seq<u8> {
    envelope.subrange(VERSION_LEN as int, HEADER_LEN as int)
}

/// The payload that an envelope of at least `HEADER_LEN` bytes carries.
pub open spec fn payload_of(envelope: Seq<u8>) -> Seq<u8> {
    envelope.subrange(HEADER_LEN as int, envelope.len() as int)
}

/// Why an envelope's header is not accepted, or `None` where it is: an
/// envelope shorter than `HEADER_LEN` is malformed, and one that is long
/// enough and begins with anything but the version tag is of an unsupported
/// version.
pub open spec fn header_refusal(envelope: Seq<u8>) -> Option<CryptoError> {
    if envelope.len() < HEADER_LEN {
        Some(CryptoError::MalformedEnvelope)
    } else if envelope.subrange(0, VERSION_LEN as int) != version_tag() {
        Some(CryptoError::UnsupportedEnvelopeVersion)
    } else {
        None
    }
}

/// The sealed bytes that `envelope` opens to under `key`, before they are
/// read as text. The header is checked first, then the payload is decoded
/// from base64, then the cipher verifies the tag.
pub open spec fn opening_of(envelope: Seq<u8>, key: Seq<u8>) -> Result<Seq<u8>, CryptoError> {
    match header_refusal(envelope) {
        Some(e) => Err(e),
        None => match base64_standard_decoded(payload_of(envelope)) {
            None => Err(CryptoError::MalformedEnvelope),
            Some(sealed) => match aes256_gcm_opened(key, nonce_of(envelope), sealed) {
                None => Err(CryptoError::AuthenticationFailure),
                Some(plaintext) => Ok(plaintext),
            },
        },
    }
}

/// The text that bytes stand for: their decoding as UTF-8, where they are
/// UTF-8.
pub open spec fn text_of(bytes: Seq<u8>) -> Result<Seq<char>, CryptoError> {
    if valid_utf8(bytes) {
        Ok(decode_utf8(bytes))
    } else {
        Err(CryptoError::MalformedPlaintext)
    }
}

/// The metadata that `envelope` decrypts to under `key`: what it opens to,
/// read as UTF-8.
pub open spec fn decryption_of(envelope: Seq<u8>, key: Seq<u8>) -> Result<Seq<char>, CryptoError> {
    match opening_of(envelope, key) {
        Err(e) => Err(e),
        Ok(plaintext) => text_of(plaintext),
    }
}

/// Whether a plaintext of `len` bytes can be sealed into an envelope: the
/// cipher takes it, and the length of the payload fits in `usize`.
pub open spec fn sealable(len: nat) -> bool {
    len <= AES_GCM_MAX_PLAINTEXT && (len + 16) / 3 * 4 + 4 <= usize::MAX
}

/// What encrypting `plaintext` under `key` returns: a refusal exactly where
/// the plaintext is not sealable, and else an envelope that carries, under
/// the nonce written in it, the plaintext sealed under that nonce, and that
/// opens to the plaintext again.
pub open spec fn encryption_outcome(
    plaintext: Seq<u8>,
    key: Seq<u8>,
    outcome: Result<Seq<u8>, CryptoError>,
) -> bool {
    match outcome {
        Ok(envelope) => {
            &&& sealable(plaintext.len())
            &&& envelope.len() >= HEADER_LEN
            &&& envelope == framed(
                nonce_of(envelope),
                base64_standard(aes256_gcm_sealed(key, nonce_of(envelope), plaintext)),
            )
            &&& opening_of(envelope, key) == Ok::<Seq<u8>, CryptoError>(plaintext)
        },
        Err(e) => e == CryptoError::EncryptionFailure && !sealable(plaintext.len()),
    }
}

/// The version tag is the identifier written in UTF-8.
pub proof fn lemma_version_tag_is_identifier()
    ensures
        encode_utf8(METADATA_IDENTIFIER@) == version_tag(),
{
    reveal_strlit("002");
    let text = METADATA_IDENTIFIER@;
    assert(text.len() == 3 && text[0] == '0' && text[1] == '0' && text[2] == '2');
    assert(is_ascii_chars(text));
    is_ascii_chars_encode_utf8(text);
    assert(encode_utf8(text) =~= version_tag());
}

/// The parts of a framed envelope are the parts it was framed from.
pub proof fn lemma_framed_parts(nonce: Seq<u8>, payload: Seq<u8>)
    requires
        nonce.len() == HEADER_LEN - VERSION_LEN,
    ensures
        framed(nonce, payload).len() == HEADER_LEN + payload.len(),
        header_refusal(framed(nonce, payload)) is None,
        nonce_of(framed(nonce, payload)) == nonce,
        payload_of(framed(nonce, payload)) == payload,
{
    let envelope = framed(nonce, payload);
    assert(envelope.subrange(0, VERSION_LEN as int) =~= version_tag());
    assert(nonce_of(envelope) =~= nonce);
    assert(payload_of(envelope) =~= payload);
}

/// Writes an envelope: the version tag, the nonce, the payload.
pub fn frame_envelope(nonce: &Nonce, payload: &[u8]) -> (envelope: Vec<u8>)
    ensures
        envelope@ == framed(nonce@, payload@),
{
    let tag = METADATA_IDENTIFIER.as_bytes();
    proof {
        lemma_version_tag_is_identifier();
    }
    let mut envelope: Vec<u8> = Vec::new();
    envelope.extend_from_slice(tag);
    envelope.extend_from_slice(nonce.as_slice());
    envelope.extend_from_slice(payload);
    assert(envelope@ =~= framed(nonce@, payload@));
    envelope
}

/// Reads an envelope's header and hands out its nonce and its payload.
pub fn parse_envelope(envelope: &[u8]) -> (parts: Result<(Nonce, &[u8]), CryptoError>)
    ensures
        match parts {
            Ok((nonce, payload)) => {
                &&& header_refusal(envelope@) is None
                &&& nonce@ == nonce_of(envelope@)
                &&& payload@ == payload_of(envelope@)
            },
            Err(e) => header_refusal(envelope@) == Some(e),
        },
{
    if envelope.len() < HEADER_LEN {
        return Err(CryptoError::MalformedEnvelope);
    }
    let tag = METADATA_IDENTIFIER.as_bytes();
    proof {
        lemma_version_tag_is_identifier();
    }
    if envelope[0] != tag[0] || envelope[1] != tag[1] || envelope[2] != tag[2] {
        assert(envelope@.subrange(0, VERSION_LEN as int)[0] == envelope@[0]);
        assert(envelope@.subrange(0, VERSION_LEN as int)[1] == envelope@[1]);
        assert(envelope@.subrange(0, VERSION_LEN as int)[2] == envelope@[2]);
        return Err(CryptoError::UnsupportedEnvelopeVersion);
    }
    assert(envelope@.subrange(0, VERSION_LEN as int) =~= version_tag());
    let nonce = Nonce::from_slice(slice_subrange(envelope, VERSION_LEN, HEADER_LEN));
    let payload = slice_subrange(envelope, HEADER_LEN, envelope.len());
    Ok((nonce.unwrap(), payload))
}

/// Metadata sealed under a key and a fresh nonce, ready to be written as an
/// envelope.
pub struct MetadataEncrypto {
    key: Key,
    nonce: Nonce,
    metadata: Vec<u8>,
}

impl MetadataEncrypto {
    /// The sealed bytes open, under the key and the nonce held beside them,
    /// to a plaintext that seals to them, and their base64 text has a length
    /// that fits in `usize`.
    #[verifier::type_invariant]
    closed spec fn well_formed(self) -> bool {
        &&& self.metadata@.len() / 3 * 4 + 4 <= usize::MAX
        &&& aes256_gcm_opened(self.key@, self.nonce@, self.metadata@) matches Some(plaintext) && (
        self.metadata@ == aes256_gcm_sealed(self.key@, self.nonce@, plaintext) && sealable(
            plaintext.len(),
        ))
    }

    /// The key that the metadata is sealed under.
    pub closed spec fn key(self) -> Seq<u8> {
        self.key@
    }

    /// The nonce that the metadata is sealed under.
    pub closed spec fn nonce(self) -> Seq<u8> {
        self.nonce@
    }

    /// The metadata that was sealed.
    pub closed spec fn plaintext(self) -> Seq<u8> {
        aes256_gcm_opened(self.key@, self.nonce@, self.metadata@)->0
    }

    /// The ciphertext followed by its tag.
    pub closed spec fn sealed(self) -> Seq<u8> {
        self.metadata@
    }

    /// Seals `metadata` under `key` and a nonce drawn for this call from the
    /// operating system's random generator.
    pub fn new(metadata: &[u8], key: &Key) -> (outcome: Result<MetadataEncrypto, CryptoError>)
        ensures
            match outcome {
                Ok(encrypto) => {
                    &&& sealable(metadata@.len())
                    &&& encrypto.key() == key@
                    &&& encrypto.plaintext() == metadata@
                    &&& encrypto.nonce().len() == HEADER_LEN - VERSION_LEN
                    &&& encrypto.sealed() == aes256_gcm_sealed(key@, encrypto.nonce(), metadata@)
                },
                Err(e) => e == CryptoError::EncryptionFailure && !sealable(metadata@.len()),
            },
    {
        let nonce = Nonce::generate();
        match run_aes_gcm_encryprion(metadata, key.as_array(), &nonce) {
            Ok(encrypted_metadata) => {
                if encrypted_metadata.len() / 3 > (usize::MAX - 4) / 4 {
                    return Err(CryptoError::EncryptionFailure);
                }
                Ok(MetadataEncrypto { key: key.clone(), nonce, metadata: encrypted_metadata })
            },
            Err(e) => Err(e),
        }
    }

    /// The envelope: the version tag, the nonce as raw bytes, and the sealed
    /// metadata in base64. It opens under the same key to the metadata that
    /// was sealed.
    pub fn to_bytes(&self) -> (envelope: Vec<u8>)
        ensures
            envelope@ == framed(self.nonce(), base64_standard(self.sealed())),
            encryption_outcome(self.plaintext(), self.key(), Ok(envelope@)),
    {
        proof {
            use_type_invariant(self);
            self.nonce.lemma_len();
        }
        let text = base64_encode(self.metadata.as_slice());
        let envelope = frame_envelope(&self.nonce, text.as_slice());
        proof {
            lemma_framed_parts(self.nonce@, text@);
        }
        envelope
    }
}

/// Metadata recovered from an envelope, with the key that opened it.
pub struct MetadataDecrypto {
    metadata: String,
    key: Key,
}

impl MetadataDecrypto {
    /// The key that opened the envelope.
    pub closed spec fn key(self) -> Seq<u8> {
        self.key@
    }

    /// The recovered metadata.
    pub closed spec fn text(self) -> Seq<char> {
        self.metadata@
    }

    /// Opens the envelope `metadata` under `key` and reads what it holds as
    /// UTF-8. The envelope is left as it is.
    pub fn new(metadata: &[u8], key: &Key) -> (outcome: Result<MetadataDecrypto, CryptoError>)
        ensures
            match outcome {
                Ok(decrypto) => decryption_of(metadata@, key@) == Ok::<Seq<char>, CryptoError>(
                    decrypto.text(),
                ) && decrypto.key() == key@,
                Err(e) => decryption_of(metadata@, key@) == Err::<Seq<char>, CryptoError>(e),
            },
            metadata@.len() < HEADER_LEN ==> outcome is Err && outcome->Err_0
                == CryptoError::MalformedEnvelope,
            metadata@.len() >= HEADER_LEN && metadata@.subrange(0, VERSION_LEN as int)
                != version_tag() ==> outcome is Err && outcome->Err_0
                == CryptoError::UnsupportedEnvelopeVersion,
    {
        match open_envelope(metadata, key) {
            Ok(result) => match string_from_utf8(result) {
                Some(result_str) => Ok(MetadataDecrypto { metadata: result_str, key: key.clone() }),
                None => Err(CryptoError::MalformedPlaintext),
            },
            Err(e) => Err(e),
        }
    }

    /// The recovered metadata.
    pub fn metadata(&self) -> (text: &String)
        ensures
            text@ == self.text(),
    {
        &self.metadata
    }

    /// Gives up the key and keeps the recovered metadata.
    pub fn into_metadata(self) -> (text: String)
        ensures
            text@ == self.text(),
    {
        self.metadata
    }
}

/// Opens `envelope` under `key` and returns the bytes that were sealed,
/// whatever they are. Nothing is returned where the header is refused, the
/// payload is not base64 or the tag does not verify.
pub fn open_envelope(envelope: &[u8], key: &Key) -> (outcome: Result<Vec<u8>, CryptoError>)
    ensures
        match outcome {
            Ok(plaintext) => opening_of(envelope@, key@) == Ok::<Seq<u8>, CryptoError>(plaintext@),
            Err(e) => opening_of(envelope@, key@) == Err::<Seq<u8>, CryptoError>(e),
        },
{
    let (nonce, payload) = match parse_envelope(envelope) {
        Ok(parts) => parts,
        Err(e) => { return Err(e); },
    };
    let encrypted = match base64_decode(payload) {
        Some(bytes) => bytes,
        None => { return Err(CryptoError::MalformedEnvelope); },
    };
    run_aes_gcm_decryption(encrypted.as_slice(), key.as_array(), &nonce)
}

/// Encrypts `plaintext` under `key` into an envelope, with a nonce drawn for
/// this call from the operating system's random generator.
pub fn encrypt(plaintext: &[u8], key: &Key) -> (outcome: Result<Vec<u8>, CryptoError>)
    ensures
        match outcome {
            Ok(envelope) => encryption_outcome(plaintext@, key@, Ok(envelope@)),
            Err(e) => encryption_outcome(plaintext@, key@, Err(e)),
        },
{
    match MetadataEncrypto::new(plaintext, key) {
        Ok(encrypto) => Ok(encrypto.to_bytes()),
        Err(e) => Err(e),
    }
}

/// Decrypts `envelope` under `key` into the metadata it carries, as text.
pub fn decrypt(envelope: &[u8], key: &Key) -> (outcome: Result<String, CryptoError>)
    ensures
        match outcome {
            Ok(text) => decryption_of(envelope@, key@) == Ok::<Seq<char>, CryptoError>(text@),
            Err(e) => decryption_of(envelope@, key@) == Err::<Seq<char>, CryptoError>(e),
        },
        envelope@.len() < HEADER_LEN ==> outcome is Err && outcome->Err_0
            == CryptoError::MalformedEnvelope,
        envelope@.len() >= HEADER_LEN && envelope@.subrange(0, VERSION_LEN as int) != version_tag()
            ==> outcome is Err && outcome->Err_0 == CryptoError::UnsupportedEnvelopeVersion,
{
    match MetadataDecrypto::new(envelope, key) {
        Ok(decrypto) => Ok(decrypto.into_metadata()),
        Err(e) => Err(e),
    }
}

/// Round trip on bytes: an envelope that encryption made of any plaintext
/// opens under the same key to that plaintext.
pub proof fn lemma_open_inverts_encrypt(plaintext: Seq<u8>, key: Seq<u8>, envelope: Seq<u8>)
    requires
        encryption_outcome(plaintext, key, Ok(envelope)),
    ensures
        opening_of(envelope, key) == Ok::<Seq<u8>, CryptoError>(plaintext),
{
}

/// Round trip on text: where the plaintext is UTF-8, an envelope that
/// encryption made of it decrypts under the same key to the text that the
/// plaintext encodes, whose UTF-8 bytes are the plaintext again. A plaintext
/// that is not UTF-8 is reported as malformed instead.
pub proof fn lemma_decrypt_inverts_encrypt(plaintext: Seq<u8>, key: Seq<u8>, envelope: Seq<u8>)
    requires
        encryption_outcome(plaintext, key, Ok(envelope)),
    ensures
        valid_utf8(plaintext) ==> decryption_of(envelope, key) == Ok::<Seq<char>, CryptoError>(
            decode_utf8(plaintext),
        ) && encode_utf8(decode_utf8(plaintext)) == plaintext,
        !valid_utf8(plaintext) ==> decryption_of(envelope, key) == Err::<Seq<char>, CryptoError>(
            CryptoError::MalformedPlaintext,
        ),
{
    if valid_utf8(plaintext) {
        decode_utf8_encode_utf8(plaintext);
    }
}

/// An envelope shorter than its header is malformed, whatever the key.
pub proof fn lemma_short_envelope_is_malformed(envelope: Seq<u8>, key: Seq<u8>)
    requires
        envelope.len() < HEADER_LEN,
    ensures
        decryption_of(envelope, key) == Err::<Seq<char>, CryptoError>(
            CryptoError::MalformedEnvelope,
        ),
{
}

/// An envelope that is long enough and does not begin with the version tag
/// is of an unsupported version, whatever the key and whatever follows.
pub proof fn lemma_other_version_is_unsupported(envelope: Seq<u8>, key: Seq<u8>)
    requires
        envelope.len() >= HEADER_LEN,
        envelope.subrange(0, VERSION_LEN as int) != version_tag(),
    ensures
        decryption_of(envelope, key) == Err::<Seq<char>, CryptoError>(
            CryptoError::UnsupportedEnvelopeVersion,
        ),
{
}

/// Decryption returns text only where the tag verified: an envelope whose
/// sealed bytes the cipher does not open under the key yields no text.
pub proof fn lemma_text_only_if_authentic(envelope: Seq<u8>, key: Seq<u8>)
    requires
        decryption_of(envelope, key) is Ok,
    ensures
        header_refusal(envelope) is None,
        base64_standard_decoded(payload_of(envelope)) matches Some(sealed) && (aes256_gcm_opened(
            key,
            nonce_of(envelope),
            sealed,
        ) matches Some(plaintext) && decryption_of(envelope, key) == text_of(plaintext)),
{
}


} // verus!
