//! The functional model: what key derivation, tag computation and the
//! counter-mode keystream mean, stated over byte sequences.  The block
//! cipher and the POLYVAL hash appear through the uninterpreted names
//! declared in `providers`.

use vstd::prelude::*;
use vstd::bytes::{spec_u32_from_le_bytes, spec_u32_to_le_bytes, spec_u64_to_le_bytes};
use crate::providers::{aes128_block, aes256_block, polyval_of};

verus! {

/// Zero bytes needed to reach the next 16-byte boundary.
pub open spec fn spec_pad_len(n: nat) -> nat {
    if n % 16 == 0 {
        0
    } else {
        (16 - n % 16) as nat
    }
}

/// `data` zero-padded to a whole number of 16-byte blocks.
pub open spec fn pad16(data: Seq<u8>) -> Seq<u8> {
    data + Seq::new(spec_pad_len(data.len()), |i: int| 0u8)
}

/// One block encrypted under `key`; the variant is determined by the key
/// length (16 bytes selects AES-128, anything else AES-256 here, and well
/// formed callers only ever pass 16 or 32).
pub open spec fn aes_enc(key: Seq<u8>, block: Seq<u8>) -> Seq<u8> {
    if key.len() == 16 {
        aes128_block(key, block)
    } else {
        aes256_block(key, block)
    }
}

/// The i-th input block of the key derivation: a 4-byte little-endian
/// counter followed by the 12-byte nonce.
pub open spec fn kdf_input_block(nonce: Seq<u8>, i: u32) -> Seq<u8> {
    spec_u32_to_le_bytes(i) + nonce
}

/// The 8 bytes the i-th derivation block contributes: the low half of its
/// encryption under the long-term key.
pub open spec fn kdf_chunk(key: Seq<u8>, nonce: Seq<u8>, i: u32) -> Seq<u8> {
    aes_enc(key, kdf_input_block(nonce, i)).subrange(0, 8)
}

/// The 16-byte authentication subkey: chunks 0 and 1.
pub open spec fn auth_key_of(key: Seq<u8>, nonce: Seq<u8>) -> Seq<u8> {
    kdf_chunk(key, nonce, 0) + kdf_chunk(key, nonce, 1)
}

/// The encryption subkey: chunks 2..4 for AES-128 (16 bytes), chunks 2..6
/// for AES-256 (32 bytes).
pub open spec fn enc_key_of(key: Seq<u8>, nonce: Seq<u8>) -> Seq<u8> {
    if key.len() == 16 {
        kdf_chunk(key, nonce, 2) + kdf_chunk(key, nonce, 3)
    } else {
        kdf_chunk(key, nonce, 2) + kdf_chunk(key, nonce, 3) + kdf_chunk(key, nonce, 4)
            + kdf_chunk(key, nonce, 5)
    }
}

/// The trailing length block: bit lengths of AAD and message, each as a
/// little-endian 64-bit field.
pub open spec fn length_block(aad_len: nat, msg_len: nat) -> Seq<u8> {
    spec_u64_to_le_bytes((aad_len * 8) as u64) + spec_u64_to_le_bytes((msg_len * 8) as u64)
}

/// Everything POLYVAL runs over: padded AAD, padded message, length block.
pub open spec fn polyval_input(aad: Seq<u8>, msg: Seq<u8>) -> Seq<u8> {
    pad16(aad) + pad16(msg) + length_block(aad.len(), msg.len())
}

/// The pre-encryption tag value: the POLYVAL output with the nonce XORed
/// into its low 12 bytes and the top bit of byte 15 cleared.
pub open spec fn tag_seed(auth_key: Seq<u8>, nonce: Seq<u8>, aad: Seq<u8>, msg: Seq<u8>) -> Seq<
    u8,
> {
    let h = polyval_of(auth_key, polyval_input(aad, msg));
    let x = Seq::new(16, |i: int| if i < 12 { h[i] ^ nonce[i] } else { h[i] });
    x.update(15, x[15] & 0x7f)
}

/// The final 16-byte tag: the seed encrypted once under the encryption
/// subkey.
pub open spec fn siv_tag(key: Seq<u8>, nonce: Seq<u8>, aad: Seq<u8>, msg: Seq<u8>) -> Seq<u8> {
    aes_enc(enc_key_of(key, nonce), tag_seed(auth_key_of(key, nonce), nonce, aad, msg))
}

/// The j-th counter block: the tag with the top bit of byte 15 forced to 1
/// and j added into its low 32 bits, little-endian, wrapping.
pub open spec fn counter_block(tagv: Seq<u8>, j: nat) -> Seq<u8> {
    let base = tagv.update(15, tagv[15] | 0x80);
    let c0 = spec_u32_from_le_bytes(base.subrange(0, 4));
    spec_u32_to_le_bytes(((c0 + j) % 0x1_0000_0000) as u32) + base.subrange(4, 16)
}

/// The i-th keystream byte under `enc_key` with seed `tagv`.
pub open spec fn keystream_byte(enc_key: Seq<u8>, tagv: Seq<u8>, i: int) -> u8 {
    aes_enc(enc_key, counter_block(tagv, (i / 16) as nat))[i % 16]
}

/// `data` XORed byte-for-byte with the keystream.
pub open spec fn ctr_xor(enc_key: Seq<u8>, tagv: Seq<u8>, data: Seq<u8>) -> Seq<u8> {
    Seq::new(data.len(), |i: int| data[i] ^ keystream_byte(enc_key, tagv, i))
}

/// Ciphertext produced by sealing `pt`.
pub open spec fn seal_ciphertext(key: Seq<u8>, nonce: Seq<u8>, aad: Seq<u8>, pt: Seq<u8>) -> Seq<
    u8,
> {
    ctr_xor(enc_key_of(key, nonce), siv_tag(key, nonce, aad, pt), pt)
}

/// Plaintext recovered by opening `buf`, whose layout is
/// `prefix bytes ‖ ciphertext ‖ 16-byte tag`; the keystream is seeded by the
/// received tag, and output lands at offset 0.
pub open spec fn open_plaintext(key: Seq<u8>, nonce: Seq<u8>, buf: Seq<u8>, prefix: nat) -> Seq<
    u8,
> {
    let m = buf.len() - 16 - prefix;
    let received = buf.subrange(buf.len() - 16, buf.len() as int);
    ctr_xor(enc_key_of(key, nonce), received, buf.subrange(prefix as int, prefix + m))
}

/// The tag recomputed over the recovered plaintext; the caller compares it
/// against the received tag in constant time.
pub open spec fn open_tag(key: Seq<u8>, nonce: Seq<u8>, aad: Seq<u8>, buf: Seq<u8>, prefix: nat)
    -> Seq<u8> {
    siv_tag(key, nonce, aad, open_plaintext(key, nonce, buf, prefix))
}

/// Padding adds nothing to whole-block data.
pub proof fn lemma_pad16_noop(s: Seq<u8>)
    requires
        s.len() % 16 == 0,
    ensures
        pad16(s) == s,
{
    assert(pad16(s) =~= s);
}

/// Padding only touches the region past any whole-block prefix.
pub proof fn lemma_pad16_split(s: Seq<u8>, k: nat)
    requires
        k % 16 == 0,
        k <= s.len(),
    ensures
        pad16(s) == s.subrange(0, k as int) + pad16(s.subrange(k as int, s.len() as int)),
{
    let tail = s.subrange(k as int, s.len() as int);
    assert(s.len() % 16 == tail.len() % 16) by {
        assert(s.len() == k + tail.len());
        assert((k + tail.len()) % 16 == tail.len() % 16) by (nonlinear_arith)
            requires
                k % 16 == 0,
        ;
    }
    assert(pad16(s) =~= s.subrange(0, k as int) + pad16(tail));
}

/// XORing with the same keystream twice restores the data.
pub proof fn lemma_ctr_xor_involutive(enc_key: Seq<u8>, tagv: Seq<u8>, data: Seq<u8>)
    ensures
        ctr_xor(enc_key, tagv, ctr_xor(enc_key, tagv, data)) == data,
{
    let once = ctr_xor(enc_key, tagv, data);
    let twice = ctr_xor(enc_key, tagv, once);
    assert forall|i: int| 0 <= i < data.len() implies twice[i] == data[i] by {
        let d = data[i];
        let k = keystream_byte(enc_key, tagv, i);
        assert((d ^ k) ^ k == d) by (bit_vector);
    }
    assert(twice =~= data);
}

} // verus!
