//! The trusted boundary to the two external providers: the AES block cipher
//! (`aes` crate) and the POLYVAL universal hash (`polyval` crate).
//!
//! Everything the rest of the crate knows about them is stated here, over
//! uninterpreted names: `aes128_block` / `aes256_block` for what one block
//! encrypts to, `polyval_of` for what the hash of a byte sequence is, and
//! accessors for what a prepared schedule or accumulator holds.  The
//! wrappers only convert between byte slices and the providers' block
//! types and make the one call each.

use vstd::prelude::*;
use crate::model::{aes_enc, pad16};
use crate::types::{spec_key_len, Variant};

verus! {

#[verifier::external_type_specification]
#[verifier::external_body]
pub struct ExAes128(aes::Aes128);

#[verifier::external_type_specification]
#[verifier::external_body]
pub struct ExAes256(aes::Aes256);

#[verifier::external_type_specification]
#[verifier::external_body]
pub struct ExPolyval(polyval::Polyval);

/// The key a prepared AES-128 schedule was expanded from.
pub uninterp spec fn aes128_key_of(c: aes::Aes128) -> Seq<u8>;

/// The key a prepared AES-256 schedule was expanded from.
pub uninterp spec fn aes256_key_of(c: aes::Aes256) -> Seq<u8>;

/// What AES-128 encrypts one 16-byte block to under a 16-byte key.
pub uninterp spec fn aes128_block(key: Seq<u8>, block: Seq<u8>) -> Seq<u8>;

/// What AES-256 encrypts one 16-byte block to under a 32-byte key.
pub uninterp spec fn aes256_block(key: Seq<u8>, block: Seq<u8>) -> Seq<u8>;

/// The key a POLYVAL accumulator was initialised with.
pub uninterp spec fn pv_key(p: polyval::Polyval) -> Seq<u8>;

/// The whole-block byte sequence an accumulator has absorbed so far.
pub uninterp spec fn pv_fed(p: polyval::Polyval) -> Seq<u8>;

/// What the POLYVAL hash of `data` (a whole number of blocks) is under the
/// 16-byte key `h`.
pub uninterp spec fn polyval_of(h: Seq<u8>, data: Seq<u8>) -> Seq<u8>;

/// Relies on `aes::Aes128` (`cipher::KeyInit::new_from_slice`): expands a
/// 16-byte key into a schedule; it fails only on a wrong key length.
#[verifier::external_body]
fn aes128_new(key: &[u8]) -> (c: aes::Aes128)
    requires
        key@.len() == 16,
    ensures
        aes128_key_of(c) == key@,
{
    <aes::Aes128 as aes::cipher::KeyInit>::new_from_slice(key).unwrap()
}

/// Relies on `aes::Aes256` (`cipher::KeyInit::new_from_slice`): expands a
/// 32-byte key into a schedule; it fails only on a wrong key length.
#[verifier::external_body]
fn aes256_new(key: &[u8]) -> (c: aes::Aes256)
    requires
        key@.len() == 32,
    ensures
        aes256_key_of(c) == key@,
{
    <aes::Aes256 as aes::cipher::KeyInit>::new_from_slice(key).unwrap()
}

/// Relies on `cipher::BlockCipherEncrypt::encrypt_block` for `aes::Aes128`:
/// encrypts one 16-byte block in place; the result depends on the schedule's
/// key and the block alone.
#[verifier::external_body]
fn aes128_encrypt_block(c: &aes::Aes128, block: &[u8]) -> (r: Vec<u8>)
    requires
        block@.len() == 16,
    ensures
        r@ == aes128_block(aes128_key_of(*c), block@),
        r@.len() == 16,
{
    let mut b: aes::Block = Default::default();
    b.copy_from_slice(block);
    <aes::Aes128 as aes::cipher::BlockCipherEncrypt>::encrypt_block(c, &mut b);
    b.as_slice().to_vec()
}

/// Relies on `cipher::BlockCipherEncrypt::encrypt_block` for `aes::Aes256`:
/// encrypts one 16-byte block in place; the result depends on the schedule's
/// key and the block alone.
#[verifier::external_body]
fn aes256_encrypt_block(c: &aes::Aes256, block: &[u8]) -> (r: Vec<u8>)
    requires
        block@.len() == 16,
    ensures
        r@ == aes256_block(aes256_key_of(*c), block@),
        r@.len() == 16,
{
    let mut b: aes::Block = Default::default();
    b.copy_from_slice(block);
    <aes::Aes256 as aes::cipher::BlockCipherEncrypt>::encrypt_block(c, &mut b);
    b.as_slice().to_vec()
}

/// Relies on `cipher::BlockCipherEncrypt::encrypt_blocks` for `aes::Aes128`:
/// encrypts each 16-byte block of the slice in place, block by block.
#[verifier::external_body]
fn aes128_encrypt_blocks(c: &aes::Aes128, data: &[u8]) -> (r: Vec<u8>)
    requires
        data@.len() % 16 == 0,
    ensures
        r@.len() == data@.len(),
        forall|b: int|
            0 <= b < data@.len() / 16 ==> #[trigger] r@.subrange(16 * b, 16 * b + 16)
                == aes128_block(aes128_key_of(*c), data@.subrange(16 * b, 16 * b + 16)),
{
    let mut bs: Vec<aes::Block> = data.chunks_exact(16).map(|ch| {
        aes::Block::try_from(ch).unwrap()
    }).collect();
    <aes::Aes128 as aes::cipher::BlockCipherEncrypt>::encrypt_blocks(c, &mut bs);
    bs.iter().flat_map(|b| b.as_slice().iter().copied()).collect()
}

/// Relies on `cipher::BlockCipherEncrypt::encrypt_blocks` for `aes::Aes256`:
/// encrypts each 16-byte block of the slice in place, block by block.
#[verifier::external_body]
fn aes256_encrypt_blocks(c: &aes::Aes256, data: &[u8]) -> (r: Vec<u8>)
    requires
        data@.len() % 16 == 0,
    ensures
        r@.len() == data@.len(),
        forall|b: int|
            0 <= b < data@.len() / 16 ==> #[trigger] r@.subrange(16 * b, 16 * b + 16)
                == aes256_block(aes256_key_of(*c), data@.subrange(16 * b, 16 * b + 16)),
{
    let mut bs: Vec<aes::Block> = data.chunks_exact(16).map(|ch| {
        aes::Block::try_from(ch).unwrap()
    }).collect();
    <aes::Aes256 as aes::cipher::BlockCipherEncrypt>::encrypt_blocks(c, &mut bs);
    bs.iter().flat_map(|b| b.as_slice().iter().copied()).collect()
}

/// Relies on `polyval::Polyval` (`KeyInit::new_from_slice`): a fresh
/// accumulator for the 16-byte key `h`, with nothing absorbed yet; it fails
/// only on a wrong key length.
#[verifier::external_body]
pub(crate) fn polyval_new(h: &[u8]) -> (p: polyval::Polyval)
    requires
        h@.len() == 16,
    ensures
        pv_key(p) == h@,
        pv_fed(p) == Seq::<u8>::empty(),
{
    <polyval::Polyval as polyval::universal_hash::KeyInit>::new_from_slice(h).unwrap()
}

/// Relies on `universal_hash::UniversalHash::update_padded`: absorbs the
/// whole blocks of `data` and, if a tail remains, one final block made of
/// the tail zero-padded to 16 bytes.
#[verifier::external_body]
pub(crate) fn polyval_update_padded(p: &mut polyval::Polyval, data: &[u8])
    ensures
        pv_key(*final(p)) == pv_key(*old(p)),
        pv_fed(*final(p)) == pv_fed(*old(p)) + pad16(data@),
{
    <polyval::Polyval as polyval::universal_hash::UniversalHash>::update_padded(p, data)
}

/// Relies on `universal_hash::UniversalHash::finalize`: the 16-byte hash of
/// everything absorbed, a function of the key and the absorbed bytes alone.
#[verifier::external_body]
pub(crate) fn polyval_finalize(p: polyval::Polyval) -> (r: Vec<u8>)
    ensures
        r@ == polyval_of(pv_key(p), pv_fed(p)),
        r@.len() == 16,
{
    let t = <polyval::Polyval as polyval::universal_hash::UniversalHash>::finalize(p);
    t.as_slice().to_vec()
}

/// Relies on `aes::hardware_accelerated`: a runtime query whose answer
/// depends on the machine; nothing is assumed of it.
#[verifier::external_body]
pub(crate) fn aes_hardware_accelerated() -> bool {
    aes::hardware_accelerated()
}

/// A prepared block-cipher schedule for either variant.  The schedule is
/// expanded once and reused for every block encrypted under the same key.
pub enum KeySchedule {
    Aes128(aes::Aes128),
    Aes256(aes::Aes256),
}

impl KeySchedule {
    /// The key this schedule was expanded from.
    pub closed spec fn key(&self) -> Seq<u8> {
        match self {
            KeySchedule::Aes128(c) => aes128_key_of(*c),
            KeySchedule::Aes256(c) => aes256_key_of(*c),
        }
    }

    /// Which AES variant the schedule drives.
    pub closed spec fn variant(&self) -> Variant {
        match self {
            KeySchedule::Aes128(_) => Variant::AES_128,
            KeySchedule::Aes256(_) => Variant::AES_256,
        }
    }

    /// The key length matches the variant, so `aes_enc` picks the right
    /// block function.
    pub open spec fn wf(&self) -> bool {
        self.key().len() == spec_key_len(self.variant())
    }

    /// Whether this is an AES-256 schedule.
    pub fn is_aes256(&self) -> (b: bool)
        ensures
            b == (self.variant() == Variant::AES_256),
    {
        match self {
            KeySchedule::Aes128(_) => false,
            KeySchedule::Aes256(_) => true,
        }
    }

    /// Expands `key` for the given variant.
    pub fn new(variant: Variant, key: &[u8]) -> (r: KeySchedule)
        requires
            key@.len() == spec_key_len(variant),
        ensures
            r.key() == key@,
            r.variant() == variant,
            r.wf(),
    {
        match variant {
            Variant::AES_128 => KeySchedule::Aes128(aes128_new(key)),
            Variant::AES_256 => KeySchedule::Aes256(aes256_new(key)),
        }
    }

    /// Encrypts one 16-byte block.
    pub fn encrypt_block(&self, block: &[u8]) -> (r: Vec<u8>)
        requires
            self.wf(),
            block@.len() == 16,
        ensures
            r@ == aes_enc(self.key(), block@),
            r@.len() == 16,
    {
        match self {
            KeySchedule::Aes128(c) => aes128_encrypt_block(c, block),
            KeySchedule::Aes256(c) => aes256_encrypt_block(c, block),
        }
    }

    /// Encrypts a whole number of 16-byte blocks, several per provider call.
    pub fn encrypt_blocks(&self, data: &[u8]) -> (r: Vec<u8>)
        requires
            self.wf(),
            data@.len() % 16 == 0,
        ensures
            r@.len() == data@.len(),
            forall|b: int|
                0 <= b < data@.len() / 16 ==> #[trigger] r@.subrange(16 * b, 16 * b + 16)
                    == aes_enc(self.key(), data@.subrange(16 * b, 16 * b + 16)),
    {
        match self {
            KeySchedule::Aes128(c) => {
                let r = aes128_encrypt_blocks(c, data);
                assert forall|b: int| 0 <= b < data@.len() / 16 implies #[trigger] r@.subrange(
                    16 * b,
                    16 * b + 16,
                ) == aes_enc(self.key(), data@.subrange(16 * b, 16 * b + 16)) by {
                    assert(r@.subrange(16 * b, 16 * b + 16) == aes128_block(
                        aes128_key_of(*c),
                        data@.subrange(16 * b, 16 * b + 16),
                    ));
                }
                r
            },
            KeySchedule::Aes256(c) => {
                let r = aes256_encrypt_blocks(c, data);
                assert forall|b: int| 0 <= b < data@.len() / 16 implies #[trigger] r@.subrange(
                    16 * b,
                    16 * b + 16,
                ) == aes_enc(self.key(), data@.subrange(16 * b, 16 * b + 16)) by {
                    assert(r@.subrange(16 * b, 16 * b + 16) == aes256_block(
                        aes256_key_of(*c),
                        data@.subrange(16 * b, 16 * b + 16),
                    ));
                }
                r
            },
        }
    }
}

} // verus!
