//! The fixed-length value objects of the cipher: key and nonce.

use super::utils::os_random;
use vstd::prelude::*;

verus! {

/// The length of a key in bytes.
pub const KEY_LEN: usize = 32;

/// The length of a nonce in bytes.
pub const NONCE_LEN: usize = 12;

/// Copies a slice of exactly `N` bytes into an array.
fn array_from_slice<const N: usize>(slice: &[u8]) -> (bytes: [u8; N])
    requires
        slice@.len() == N,
    ensures
        bytes@ == slice@,
{
    let mut bytes = [0u8; N];
    let mut i: usize = 0;
    while i < N
        invariant
            i <= N,
            slice@.len() == N,
            bytes@.len() == N,
            forall|j: int| 0 <= j < i ==> bytes@[j] == slice@[j],
        decreases N - i,
    {
        bytes[i] = slice[i];
        i += 1;
    }
    assert(bytes@ =~= slice@);
    bytes
}

/// A key of AES-256: exactly 32 bytes of secret material, fixed once made.
pub struct Key {
    bytes: [u8; 32],
}

impl View for Key {
    type V = Seq<u8>;

    closed spec fn view(&self) -> Seq<u8> {
        self.bytes@
    }
}

impl Clone for Key {
    fn clone(&self) -> (copy: Key)
        ensures
            copy@ == self@,
    {
        Key { bytes: self.bytes }
    }
}

impl Key {
    /// Every key is 32 bytes long.
    pub proof fn lemma_len(self)
        ensures
            self@.len() == KEY_LEN,
    {
    }

    /// A fresh key from the operating system's random generator.
    pub fn generate() -> (key: Key)
        ensures
            key@.len() == KEY_LEN,
    {
        Key { bytes: os_random::<32>() }
    }

    /// The key that holds the bytes of `slice`, which must be exactly 32:
    /// a slice of any other length is rejected.
    pub fn from_slice(slice: &[u8]) -> (key: Option<Key>)
        ensures
            key is Some <==> slice@.len() == KEY_LEN,
            key matches Some(k) ==> k@ == slice@,
    {
        if slice.len() != KEY_LEN {
            return None;
        }
        Some(Key { bytes: array_from_slice::<32>(slice) })
    }

    /// The key that holds `bytes`.
    pub fn from_array(bytes: [u8; 32]) -> (key: Key)
        ensures
            key@ == bytes@,
    {
        Key { bytes }
    }

    /// The bytes of the key.
    pub fn as_slice(&self) -> (bytes: &[u8])
        ensures
            bytes@ == self@,
            bytes@.len() == KEY_LEN,
    {
        self.bytes.as_slice()
    }

    /// The bytes of the key as an array.
    pub fn as_array(&self) -> (bytes: &[u8; 32])
        ensures
            bytes@ == self@,
    {
        &self.bytes
    }
}

/// A nonce of AES-GCM: exactly twelve bytes, used for one encryption under a
/// given key.
#[derive(Clone, Copy, Debug)]
pub struct Nonce {
    bytes: [u8; 12],
}

impl View for Nonce {
    type V = Seq<u8>;

    closed spec fn view(&self) -> Seq<u8> {
        self.bytes@
    }
}

impl Nonce {
    /// Every nonce is twelve bytes long.
    pub proof fn lemma_len(self)
        ensures
            self@.len() == NONCE_LEN,
    {
    }

    /// A fresh nonce from the operating system's random generator.
    pub fn generate() -> (nonce: Nonce)
        ensures
            nonce@.len() == NONCE_LEN,
    {
        Nonce { bytes: os_random::<12>() }
    }

    /// The nonce that holds the bytes of `slice`, which must be exactly
    /// twelve: a slice of any other length is rejected.
    pub fn from_slice(slice: &[u8]) -> (nonce: Option<Nonce>)
        ensures
            nonce is Some <==> slice@.len() == NONCE_LEN,
            nonce matches Some(n) ==> n@ == slice@,
    {
        if slice.len() != NONCE_LEN {
            return None;
        }
        Some(Nonce { bytes: array_from_slice::<12>(slice) })
    }

    /// The bytes of the nonce.
    pub fn as_slice(&self) -> (bytes: &[u8])
        ensures
            bytes@ == self@,
            bytes@.len() == NONCE_LEN,
    {
        self.bytes.as_slice()
    }

    /// The bytes of the nonce as an array.
    pub fn as_array(&self) -> (bytes: &[u8; 12])
        ensures
            bytes@ == self@,
    {
        &self.bytes
    }
}

} // verus!
