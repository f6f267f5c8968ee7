//! Plain value types of the AEAD interface: variants, nonces, tags,
//! associated data, capability tokens and algorithm identity constants.

use vstd::prelude::*;

verus! {

/// Length of one cipher block in bytes.
pub const BLOCK_LEN: usize = 16;

/// Length of the authentication tag in bytes.
pub const TAG_LEN: usize = 16;

/// Length of a nonce in bytes.
pub const NONCE_LEN: usize = 12;

/// Largest total input length the enclosing AEAD layer may pass in, derived
/// from the 32-bit block counter: two blocks of the counter space are
/// reserved, the rest may carry message bytes.
pub const AES_GCM_MAX_INPUT_LEN: u64 = (4294967296u64 - 2) * 16;

/// The two AES variants this construction supports.
#[allow(non_camel_case_types)]
#[derive(Clone, Copy, PartialEq, Eq, Structural, Debug)]
pub enum Variant {
    AES_128,
    AES_256,
}

/// Key length in bytes of an AES variant; it is also the length of the
/// derived encryption subkey.
pub open spec fn spec_key_len(variant: Variant) -> nat {
    match variant {
        Variant::AES_128 => 16,
        Variant::AES_256 => 32,
    }
}

/// The single error value: construction was refused.
#[derive(Clone, Copy, PartialEq, Eq, Structural, Debug)]
pub struct Unspecified;

/// A 96-bit nonce.  Uniqueness per key is the caller's contract and is not
/// enforced here.
pub struct Nonce {
    pub(crate) bytes: Vec<u8>,
}

impl View for Nonce {
    type V = Seq<u8>;

    closed spec fn view(&self) -> Seq<u8> {
        self.bytes@
    }
}

impl Nonce {
    /// The nonce holds exactly 12 bytes.
    pub open spec fn wf(&self) -> bool {
        self@.len() == NONCE_LEN
    }

    /// Read access to the nonce bytes.
    pub fn as_bytes(&self) -> (r: &Vec<u8>)
        ensures
            r@ == self@,
    {
        &self.bytes
    }

    /// Accepts exactly 12 bytes; the caller asserts uniqueness per key.
    pub fn try_assume_unique_for_key(value: &Vec<u8>) -> (r: Result<Nonce, Unspecified>)
        ensures
            value@.len() == NONCE_LEN ==> (r matches Ok(n) && n@ == value@ && n.wf()),
            value@.len() != NONCE_LEN ==> (r matches Err(e) && e == Unspecified),
    {
        if value.len() != NONCE_LEN {
            return Err(Unspecified);
        }
        let mut bytes: Vec<u8> = Vec::new();
        crate::util::push_range(&mut bytes, value.as_slice(), 0, value.len());
        Ok(Nonce { bytes })
    }
}

/// The 16-byte authentication tag produced by seal and recomputed by open.
pub struct Tag(pub Vec<u8>);

/// Associated data: authenticated, never encrypted; zero length is valid.
pub struct Aad<'a>(pub &'a Vec<u8>);

/// Host capabilities, as reported by a one-shot runtime query or chosen by
/// the caller.  Selects which of the two equivalent paths runs.
#[derive(Clone, Copy, PartialEq, Eq, Structural, Debug)]
pub struct Features {
    pub accelerated: bool,
}

/// The two execution paths.  Both are verified against the same model, so
/// the choice never changes any output byte.
#[derive(Clone, Copy, PartialEq, Eq, Structural, Debug)]
pub enum Implementation {
    Portable,
    Accelerated,
}

/// Identity of a registered algorithm.
#[allow(non_camel_case_types)]
#[derive(Clone, Copy, PartialEq, Eq, Structural, Debug)]
pub enum AlgorithmID {
    AES_128_GCM_SIV,
    AES_256_GCM_SIV,
}

/// The constants an enclosing generic AEAD registry dispatches on.
#[derive(Clone, Copy, PartialEq, Eq, Structural, Debug)]
pub struct Algorithm {
    pub key_len: usize,
    pub tag_len: usize,
    pub max_input_len: u64,
    pub id: AlgorithmID,
}

/// AES-128 in GCM-SIV mode with 128-bit tags and 96-bit nonces.
pub fn aes_128_gcm_siv() -> (a: Algorithm)
    ensures
        a.key_len == spec_key_len(Variant::AES_128),
        a.tag_len == TAG_LEN,
        a.max_input_len == AES_GCM_MAX_INPUT_LEN,
        a.id == AlgorithmID::AES_128_GCM_SIV,
{
    Algorithm {
        key_len: 16,
        tag_len: TAG_LEN,
        max_input_len: AES_GCM_MAX_INPUT_LEN,
        id: AlgorithmID::AES_128_GCM_SIV,
    }
}

/// AES-256 in GCM-SIV mode with 128-bit tags and 96-bit nonces.
pub fn aes_256_gcm_siv() -> (a: Algorithm)
    ensures
        a.key_len == spec_key_len(Variant::AES_256),
        a.tag_len == TAG_LEN,
        a.max_input_len == AES_GCM_MAX_INPUT_LEN,
        a.id == AlgorithmID::AES_256_GCM_SIV,
{
    Algorithm {
        key_len: 32,
        tag_len: TAG_LEN,
        max_input_len: AES_GCM_MAX_INPUT_LEN,
        id: AlgorithmID::AES_256_GCM_SIV,
    }
}

} // verus!
