//! The crate-level laws, proved over the functional model that every
//! public function's contract is stated against.
//!
//! Equivalence of the two execution paths needs no lemma of its own: the
//! portable and accelerated entry points carry one and the same contract,
//! pinned to `seal_ciphertext`, `siv_tag`, `open_plaintext` and
//! `open_tag`, so their outputs agree byte for byte on every input.

use vstd::prelude::*;
use crate::model::{
    ctr_xor, enc_key_of, lemma_ctr_xor_involutive, open_plaintext, open_tag, seal_ciphertext,
    siv_tag,
};

verus! {

/// Round trip: opening `junk ‖ seal(pt) ‖ tag` at prefix `junk.len()`
/// recovers `pt`, and the tag open recomputes equals the tag seal produced.
/// The one assumption is the data-model fact that a tag is 16 bytes, which
/// every executable seal establishes.
pub proof fn lemma_seal_open_round_trip(
    key: Seq<u8>,
    nonce: Seq<u8>,
    aad: Seq<u8>,
    pt: Seq<u8>,
    junk: Seq<u8>,
)
    requires
        siv_tag(key, nonce, aad, pt).len() == 16,
    ensures
        ({
            let buf = junk + seal_ciphertext(key, nonce, aad, pt) + siv_tag(key, nonce, aad, pt);
            &&& open_plaintext(key, nonce, buf, junk.len()) == pt
            &&& open_tag(key, nonce, aad, buf, junk.len()) == siv_tag(key, nonce, aad, pt)
        }),
{
    let ek = enc_key_of(key, nonce);
    let ct = seal_ciphertext(key, nonce, aad, pt);
    let tg = siv_tag(key, nonce, aad, pt);
    let buf = junk + ct + tg;
    let p = junk.len();
    let m = buf.len() - 16 - p;
    assert(m == pt.len());
    assert(buf.subrange(buf.len() - 16, buf.len() as int) =~= tg);
    assert(buf.subrange(p as int, p + m) =~= ct);
    lemma_ctr_xor_involutive(ek, tg, pt);
    assert(open_plaintext(key, nonce, buf, p) == ctr_xor(ek, tg, ct));
}

/// Prefix-offset correctness: two buffers that agree from their respective
/// ciphertext offsets onwards open to the same plaintext and the same
/// recomputed tag, wherever the prefixes start.
pub proof fn lemma_prefix_offset_equivalence(
    key: Seq<u8>,
    nonce: Seq<u8>,
    aad: Seq<u8>,
    buf1: Seq<u8>,
    p1: nat,
    buf2: Seq<u8>,
    p2: nat,
)
    requires
        p1 + 16 <= buf1.len(),
        p2 + 16 <= buf2.len(),
        buf1.subrange(p1 as int, buf1.len() as int) == buf2.subrange(
            p2 as int,
            buf2.len() as int,
        ),
    ensures
        open_plaintext(key, nonce, buf1, p1) == open_plaintext(key, nonce, buf2, p2),
        open_tag(key, nonce, aad, buf1, p1) == open_tag(key, nonce, aad, buf2, p2),
{
    let m = buf1.len() - 16 - p1;
    let rest1 = buf1.subrange(p1 as int, buf1.len() as int);
    let rest2 = buf2.subrange(p2 as int, buf2.len() as int);
    assert(rest1.len() == rest2.len());
    assert(buf2.len() - 16 - p2 == m);
    assert(buf1.subrange(buf1.len() - 16, buf1.len() as int) =~= rest1.subrange(
        m,
        rest1.len() as int,
    ));
    assert(buf2.subrange(buf2.len() - 16, buf2.len() as int) =~= rest2.subrange(
        m,
        rest2.len() as int,
    ));
    assert(buf1.subrange(p1 as int, p1 + m) =~= rest1.subrange(0, m));
    assert(buf2.subrange(p2 as int, p2 + m) =~= rest2.subrange(0, m));
}

} // verus!
