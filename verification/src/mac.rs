//! Tag computation: POLYVAL over padded AAD, padded message and the length
//! block, then the nonce XOR, the top-bit clear, and (at the callers) one
//! block encryption.  The portable path absorbs one block per provider
//! call; the accelerated path hands the provider six blocks at a time,
//! staged in a self-zeroizing scratch area.

use vstd::prelude::*;
use vstd::bytes::u64_to_le_bytes;
use crate::model::{
    lemma_pad16_noop, lemma_pad16_split, length_block, pad16, polyval_input, tag_seed,
};
use crate::providers::{polyval_finalize, polyval_new, polyval_update_padded, pv_fed, pv_key};
use crate::scratch::{CalculatedTag, HTable};
use crate::types::{Nonce, AES_GCM_MAX_INPUT_LEN};
use crate::util::{push_all, push_range, zeroize};

verus! {

/// Absorbs `data[..len]` one 16-byte block per provider call, zero-padding
/// the final partial block: the block-at-a-time form of the hash interface.
pub(crate) fn pv_absorb_blockwise(p: &mut polyval::Polyval, data: &[u8], len: usize)
    requires
        len <= data@.len(),
    ensures
        pv_key(*final(p)) == pv_key(*old(p)),
        pv_fed(*final(p)) == pv_fed(*old(p)) + pad16(data@.subrange(0, len as int)),
{
    let nblocks = len / 16;
    let mut j: usize = 0;
    while j < nblocks
        invariant
            len <= data@.len(),
            nblocks == len / 16,
            j <= nblocks,
            pv_key(*p) == pv_key(*old(p)),
            pv_fed(*p) == pv_fed(*old(p)) + data@.subrange(0, 16 * (j as int)),
        decreases nblocks - j,
    {
        proof {
            assert(16 * (j as int) + 16 <= len) by (nonlinear_arith)
                requires
                    j < nblocks,
                    nblocks == len / 16,
            ;
        }
        let mut block: Vec<u8> = Vec::new();
        push_range(&mut block, data, 16 * j, 16 * j + 16);
        polyval_update_padded(p, block.as_slice());
        proof {
            lemma_pad16_noop(block@);
            assert(pv_fed(*p) =~= pv_fed(*old(p)) + data@.subrange(0, 16 * (j + 1 as int)));
        }
        j += 1;
    }
    let rem = len % 16;
    if rem > 0 {
        let start = len - rem;
        let mut block: Vec<u8> = Vec::new();
        push_range(&mut block, data, start, len);
        polyval_update_padded(p, block.as_slice());
        proof {
            assert(start as int == 16 * (nblocks as int) && start as int % 16 == 0)
                by (nonlinear_arith)
                requires
                    nblocks == len / 16,
                    rem == len % 16,
                    start == len - rem,
            ;
            let full = data@.subrange(0, len as int);
            lemma_pad16_split(full, start as nat);
            assert(full.subrange(0, start as int) =~= data@.subrange(0, start as int));
            assert(full.subrange(start as int, full.len() as int) =~= data@.subrange(
                start as int,
                len as int,
            ));
            assert(pv_fed(*p) =~= pv_fed(*old(p)) + pad16(full));
        }
    } else {
        proof {
            assert(len as int == 16 * (nblocks as int)) by (nonlinear_arith)
                requires
                    nblocks == len / 16,
                    len % 16 == 0,
            ;
            lemma_pad16_noop(data@.subrange(0, len as int));
        }
    }
}

/// Absorbs `data[..len]` six blocks per provider call, staging each batch
/// in a fixed scratch area that is zeroized on drop: the multi-block form
/// of the hash interface.
pub(crate) fn pv_absorb_batched(p: &mut polyval::Polyval, data: &[u8], len: usize)
    requires
        len <= data@.len(),
    ensures
        pv_key(*final(p)) == pv_key(*old(p)),
        pv_fed(*final(p)) == pv_fed(*old(p)) + pad16(data@.subrange(0, len as int)),
{
    let groups = len / 96;
    let mut ht = HTable::new();
    let mut g: usize = 0;
    while g < groups
        invariant
            len <= data@.len(),
            groups == len / 96,
            g <= groups,
            ht.htable@.len() == 96,
            pv_key(*p) == pv_key(*old(p)),
            pv_fed(*p) == pv_fed(*old(p)) + data@.subrange(0, 96 * (g as int)),
        decreases groups - g,
    {
        proof {
            assert(96 * (g as int) + 96 <= len) by (nonlinear_arith)
                requires
                    g < groups,
                    groups == len / 96,
            ;
        }
        let base = 96 * g;
        let mut t: usize = 0;
        while t < 96
            invariant
                t <= 96,
                base == 96 * (g as int),
                base + 96 <= len <= data@.len(),
                ht.htable@.len() == 96,
                forall|k: int| 0 <= k < t ==> ht.htable@[k] == data@[base + k],
            decreases 96 - t,
        {
            ht.htable[t] = data[base + t];
            t += 1;
        }
        polyval_update_padded(p, ht.htable.as_slice());
        proof {
            assert(ht.htable@ =~= data@.subrange(base as int, base as int + 96));
            lemma_pad16_noop(ht.htable@);
            assert(pv_fed(*p) =~= pv_fed(*old(p)) + data@.subrange(0, 96 * (g + 1 as int)));
        }
        g += 1;
    }
    proof {
        assert(96 * (groups as int) <= len && 96 * (groups as int) % 16 == 0)
            by (nonlinear_arith)
            requires
                groups == len / 96,
        ;
    }
    let done = 96 * groups;
    if done < len {
        let mut tail: Vec<u8> = Vec::new();
        push_range(&mut tail, data, done, len);
        polyval_update_padded(p, tail.as_slice());
        zeroize(&mut tail);
        proof {
            let full = data@.subrange(0, len as int);
            lemma_pad16_split(full, done as nat);
            assert(full.subrange(0, done as int) =~= data@.subrange(0, done as int));
            assert(full.subrange(done as int, full.len() as int) =~= data@.subrange(
                done as int,
                len as int,
            ));
            assert(pv_fed(*p) =~= pv_fed(*old(p)) + pad16(full));
        }
    } else {
        proof {
            lemma_pad16_noop(data@.subrange(0, len as int));
        }
    }
}

/// Absorbs the trailing length block, finalizes the hash, XORs the nonce
/// into the low 12 bytes and clears the top bit of byte 15, yielding the
/// pre-encryption tag value.
fn finish_tag_seed(
    p: polyval::Polyval,
    aad_len: usize,
    msg_len: usize,
    nonce: &Nonce,
    Ghost(aad0): Ghost<Seq<u8>>,
    Ghost(msg0): Ghost<Seq<u8>>,
) -> (seed: Vec<u8>)
    requires
        pv_fed(p) == pad16(aad0) + pad16(msg0),
        aad0.len() == aad_len,
        msg0.len() == msg_len,
        aad_len <= AES_GCM_MAX_INPUT_LEN,
        msg_len <= AES_GCM_MAX_INPUT_LEN,
        nonce.wf(),
    ensures
        seed@ == tag_seed(pv_key(p), nonce@, aad0, msg0),
        seed@.len() == 16,
{
    let ghost pk = pv_key(p);
    let mut acc = p;
    let mut lb = u64_to_le_bytes((aad_len as u64) * 8);
    let lb2 = u64_to_le_bytes((msg_len as u64) * 8);
    push_all(&mut lb, lb2.as_slice());
    polyval_update_padded(&mut acc, lb.as_slice());
    proof {
        lemma_pad16_noop(lb@);
        assert(lb@ == length_block(aad0.len(), msg0.len()));
        assert(pv_fed(acc) == polyval_input(aad0, msg0));
    }
    let mut h = polyval_finalize(acc);
    let ghost h0 = h@;
    let nb = nonce.as_bytes();
    let mut i: usize = 0;
    while i < 12
        invariant
            i <= 12,
            h@.len() == 16,
            h0.len() == 16,
            nb@.len() == 12,
            nb@ == nonce@,
            forall|k: int| 0 <= k < i ==> h@[k] == (h0[k] ^ nonce@[k]),
            forall|k: int| i <= k < 16 ==> h@[k] == h0[k],
        decreases 12 - i,
    {
        h[i] = h[i] ^ nb[i];
        i += 1;
    }
    let b15 = h[15];
    h[15] = b15 & 0x7f;
    proof {
        let x = Seq::new(16, |k: int| if k < 12 { h0[k] ^ nonce@[k] } else { h0[k] });
        assert(h@ =~= x.update(15, x[15] & 0x7f));
    }
    h
}

/// The pre-encryption tag value, computed a block at a time.
pub(crate) fn compute_tag_seed_portable(
    auth_key: &Vec<u8>,
    nonce: &Nonce,
    aad: &Vec<u8>,
    msg: &[u8],
    msg_len: usize,
) -> (seed: Vec<u8>)
    requires
        auth_key@.len() == 16,
        nonce.wf(),
        msg_len <= msg@.len(),
        aad@.len() <= AES_GCM_MAX_INPUT_LEN,
        msg_len <= AES_GCM_MAX_INPUT_LEN,
    ensures
        seed@ == tag_seed(auth_key@, nonce@, aad@, msg@.subrange(0, msg_len as int)),
        seed@.len() == 16,
{
    let mut p = polyval_new(auth_key.as_slice());
    pv_absorb_blockwise(&mut p, aad.as_slice(), aad.len());
    pv_absorb_blockwise(&mut p, msg, msg_len);
    proof {
        assert(aad@.subrange(0, aad@.len() as int) =~= aad@);
        assert(pv_fed(p) =~= pad16(aad@) + pad16(msg@.subrange(0, msg_len as int)));
    }
    finish_tag_seed(p, aad.len(), msg_len, nonce, Ghost(aad@), Ghost(msg@.subrange(0, msg_len as int)))
}

/// The pre-encryption tag value, computed six blocks at a time and parked
/// in a self-zeroizing scratch tag.
pub(crate) fn compute_tag_seed_batched(
    auth_key: &Vec<u8>,
    nonce: &Nonce,
    aad: &Vec<u8>,
    msg: &[u8],
    msg_len: usize,
) -> (ct: CalculatedTag)
    requires
        auth_key@.len() == 16,
        nonce.wf(),
        msg_len <= msg@.len(),
        aad@.len() <= AES_GCM_MAX_INPUT_LEN,
        msg_len <= AES_GCM_MAX_INPUT_LEN,
    ensures
        ct.tag@ == tag_seed(auth_key@, nonce@, aad@, msg@.subrange(0, msg_len as int)),
        ct.tag@.len() == 16,
{
    let mut p = polyval_new(auth_key.as_slice());
    pv_absorb_batched(&mut p, aad.as_slice(), aad.len());
    pv_absorb_batched(&mut p, msg, msg_len);
    proof {
        assert(aad@.subrange(0, aad@.len() as int) =~= aad@);
        assert(pv_fed(p) =~= pad16(aad@) + pad16(msg@.subrange(0, msg_len as int)));
    }
    let mut seed = finish_tag_seed(
        p,
        aad.len(),
        msg_len,
        nonce,
        Ghost(aad@),
        Ghost(msg@.subrange(0, msg_len as int)),
    );
    let mut ct = CalculatedTag::new();
    let mut t: usize = 0;
    while t < 16
        invariant
            t <= 16,
            ct.tag@.len() == 16,
            seed@.len() == 16,
            forall|k: int| 0 <= k < t ==> ct.tag@[k] == seed@[k],
        decreases 16 - t,
    {
        ct.tag[t] = seed[t];
        t += 1;
    }
    zeroize(&mut seed);
    proof {
        assert(ct.tag@ =~= tag_seed(auth_key@, nonce@, aad@, msg@.subrange(0, msg_len as int)));
    }
    ct
}

} // verus!
