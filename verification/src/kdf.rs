//! Per-message key derivation: four (AES-128) or six (AES-256) blocks of
//! `counter ‖ nonce` are encrypted under the long-term key, and the low 8
//! bytes of each output fill the authentication subkey, then the encryption
//! subkey.  The derivation is shared by both execution paths, so they agree
//! byte for byte.

use vstd::prelude::*;
use vstd::bytes::u32_to_le_bytes;
use crate::model::{auth_key_of, enc_key_of, kdf_chunk, kdf_input_block};
use crate::providers::KeySchedule;
use crate::types::{spec_key_len, Nonce};
use crate::util::{push_all, push_range, zeroize};

verus! {

/// The 8 bytes that derivation block `i` contributes.
fn kdf_chunk_out(sched: &KeySchedule, nonce: &Nonce, i: u32) -> (r: Vec<u8>)
    requires
        sched.wf(),
        nonce.wf(),
    ensures
        r@ == kdf_chunk(sched.key(), nonce@, i),
        r@.len() == 8,
{
    let mut block = u32_to_le_bytes(i);
    push_all(&mut block, nonce.as_bytes().as_slice());
    assert(block@ == kdf_input_block(nonce@, i));
    let mut out = sched.encrypt_block(block.as_slice());
    let mut r: Vec<u8> = Vec::new();
    push_range(&mut r, out.as_slice(), 0, 8);
    assert(r@ == out@.subrange(0, 8));
    zeroize(&mut out);
    r
}

/// Derives the 16-byte authentication subkey and the 16- or 32-byte
/// encryption subkey for one seal/open call.  Both subkeys are ephemeral
/// and must be zeroized by the caller before it returns.
pub(crate) fn derive_keys(sched: &KeySchedule, nonce: &Nonce) -> (r: (Vec<u8>, Vec<u8>))
    requires
        sched.wf(),
        nonce.wf(),
    ensures
        r.0@ == auth_key_of(sched.key(), nonce@),
        r.0@.len() == 16,
        r.1@ == enc_key_of(sched.key(), nonce@),
        r.1@.len() == spec_key_len(sched.variant()),
{
    let c0 = kdf_chunk_out(sched, nonce, 0);
    let c1 = kdf_chunk_out(sched, nonce, 1);
    let c2 = kdf_chunk_out(sched, nonce, 2);
    let c3 = kdf_chunk_out(sched, nonce, 3);
    let mut auth = c0;
    push_all(&mut auth, &c1);
    let mut enc = c2;
    push_all(&mut enc, &c3);
    if sched.is_aes256() {
        let c4 = kdf_chunk_out(sched, nonce, 4);
        let c5 = kdf_chunk_out(sched, nonce, 5);
        push_all(&mut enc, &c4);
        push_all(&mut enc, &c5);
    }
    (auth, enc)
}

} // verus!
