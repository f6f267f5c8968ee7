//! The counter-mode keystream seeded by the tag, and the partial-block
//! handler.  Reads happen at `prefix + i`, writes at `i`, so decrypted
//! output may land earlier in the buffer than the ciphertext it replaces;
//! processing runs forward, so no write ever clobbers a byte that is still
//! to be read.  Counter blocks clear themselves on drop, and every
//! keystream temporary is zeroized after its last use.

use vstd::prelude::*;
use vstd::bytes::{u32_from_le_bytes, u32_to_le_bytes};
use crate::model::{counter_block, keystream_byte};
use crate::providers::KeySchedule;
use crate::types::AES_GCM_MAX_INPUT_LEN;
use crate::util::{push_all, push_range, zeroize};

verus! {

broadcast use vstd::array::group_array_axioms;

/// One counter block, ready for the block cipher; zeroized on drop.
pub struct Counter {
    pub(crate) counter: [u8; 16],
}

impl Counter {
    /// The counter block's contents.
    pub closed spec fn spec_counter(&self) -> Seq<u8> {
        self.counter@
    }
}

impl Drop for Counter {
    /// Every byte of the counter block is cleared, on every exit path.
    fn drop(&mut self)
        ensures
            final(self).spec_counter().len() == 16,
            forall|i: int| 0 <= i < 16 ==> final(self).spec_counter()[i] == 0u8,
        opens_invariants none
        no_unwind
    {
        self.counter = [
            0u8, 0u8, 0u8, 0u8, 0u8, 0u8, 0u8, 0u8, 0u8, 0u8, 0u8, 0u8, 0u8, 0u8, 0u8, 0u8,
        ];
    }
}

/// Builds counter block `j`: the tag with the top bit of byte 15 forced to
/// 1 and `j` added into its low 32 bits, little-endian, wrapping.
pub(crate) fn make_counter_block(tagv: &Vec<u8>, j: u64) -> (c: Counter)
    requires
        tagv@.len() == 16,
        j < 0x1_0000_0000,
    ensures
        c.counter@ == counter_block(tagv@, j as nat),
        c.counter@.len() == 16,
{
    let mut base: Vec<u8> = Vec::new();
    push_all(&mut base, tagv.as_slice());
    let b15 = base[15];
    base[15] = b15 | 0x80;
    assert(base@ =~= tagv@.update(15, tagv@[15] | 0x80));
    let mut four: Vec<u8> = Vec::new();
    push_range(&mut four, base.as_slice(), 0, 4);
    assert(four@ =~= base@.subrange(0, 4));
    let c0 = u32_from_le_bytes(four.as_slice());
    let v = (c0 as u64 + j) % 0x1_0000_0000;
    let mut out = u32_to_le_bytes(v as u32);
    push_range(&mut out, base.as_slice(), 4, 16);
    assert(out@ =~= counter_block(tagv@, j as nat));
    let mut counter: [u8; 16] = [0u8; 16];
    let mut i: usize = 0;
    while i < 16
        invariant
            i <= 16,
            out@.len() == 16,
            counter@.len() == 16,
            forall|k: int| 0 <= k < i ==> counter@[k] == out@[k],
        decreases 16 - i,
    {
        counter[i] = out[i];
        i += 1;
    }
    assert(counter@ =~= out@);
    zeroize(&mut out);
    zeroize(&mut base);
    zeroize(&mut four);
    Counter { counter }
}

/// XORs the keystream into `in_out`: byte `i` of the output is byte
/// `prefix + i` of the input XORed with keystream byte `i`, for the first
/// `msg_len` bytes; everything past `msg_len` is left as it was.
pub(crate) fn crypt(
    in_out: &mut Vec<u8>,
    prefix: usize,
    msg_len: usize,
    tagv: &Vec<u8>,
    sched: &KeySchedule,
)
    requires
        sched.wf(),
        tagv@.len() == 16,
        prefix + msg_len <= old(in_out)@.len(),
        msg_len <= AES_GCM_MAX_INPUT_LEN,
    ensures
        final(in_out)@.len() == old(in_out)@.len(),
        forall|i: int|
            0 <= i < msg_len ==> final(in_out)@[i] == (old(in_out)@[prefix + i] ^ keystream_byte(
                sched.key(),
                tagv@,
                i,
            )),
        forall|i: int|
            msg_len <= i < old(in_out)@.len() ==> final(in_out)@[i] == old(in_out)@[i],
{
    let total = in_out.len();
    let nblocks = msg_len / 16;
    let mut j: usize = 0;
    while j < nblocks
        invariant
            sched.wf(),
            tagv@.len() == 16,
            total == in_out@.len(),
            nblocks == msg_len / 16,
            j <= nblocks,
            msg_len <= AES_GCM_MAX_INPUT_LEN,
            prefix + msg_len <= in_out@.len(),
            in_out@.len() == old(in_out)@.len(),
            forall|i: int|
                0 <= i < 16 * (j as int) ==> in_out@[i] == (old(in_out)@[prefix + i]
                    ^ keystream_byte(sched.key(), tagv@, i)),
            forall|i: int|
                16 * (j as int) <= i < in_out@.len() ==> in_out@[i] == old(in_out)@[i],
        decreases nblocks - j,
    {
        proof {
            assert(16 * (j as int) + 16 <= msg_len && (j as int) < 0x1_0000_0000)
                by (nonlinear_arith)
                requires
                    j < nblocks,
                    nblocks == msg_len / 16,
                    msg_len <= AES_GCM_MAX_INPUT_LEN,
            ;
        }
        let cb = make_counter_block(tagv, j as u64);
        let mut ks = sched.encrypt_block(cb.counter.as_slice());
        let mut t: usize = 0;
        while t < 16
            invariant
                t <= 16,
                j < nblocks,
                16 * (j as int) + 16 <= msg_len,
                total == in_out@.len(),
                prefix + msg_len <= in_out@.len(),
                in_out@.len() == old(in_out)@.len(),
                ks@.len() == 16,
                ks@ == crate::model::aes_enc(sched.key(), counter_block(tagv@, j as nat)),
                forall|i: int|
                    0 <= i < 16 * (j as int) + t ==> in_out@[i] == (old(in_out)@[prefix + i]
                        ^ keystream_byte(sched.key(), tagv@, i)),
                forall|i: int|
                    16 * (j as int) + t <= i < in_out@.len() ==> in_out@[i] == old(in_out)@[i],
            decreases 16 - t,
        {
            let idx = 16 * j + t;
            let b = in_out[prefix + idx];
            let k = ks[t];
            in_out[idx] = b ^ k;
            proof {
                assert((16 * (j as int) + t) / 16 == j as int && (16 * (j as int) + t) % 16
                    == t as int) by (nonlinear_arith)
                    requires
                        0 <= t < 16,
                        0 <= j,
                ;
                assert(keystream_byte(sched.key(), tagv@, idx as int) == ks@[t as int]);
            }
            t += 1;
        }
        zeroize(&mut ks);
        j += 1;
    }
    if msg_len % 16 != 0 {
        crypt_last_block(tagv, in_out, sched, msg_len, prefix);
    }
}

/// Batched form of `crypt`: encrypts the counter blocks four or eight at a
/// time (the narrow batch under 128 bytes of message), then lets the
/// partial-block handler finish.  Output is byte-identical to `crypt`.
pub(crate) fn crypt_batched(
    in_out: &mut Vec<u8>,
    prefix: usize,
    msg_len: usize,
    tagv: &Vec<u8>,
    sched: &KeySchedule,
)
    requires
        sched.wf(),
        tagv@.len() == 16,
        prefix + msg_len <= old(in_out)@.len(),
        msg_len <= AES_GCM_MAX_INPUT_LEN,
    ensures
        final(in_out)@.len() == old(in_out)@.len(),
        forall|i: int|
            0 <= i < msg_len ==> final(in_out)@[i] == (old(in_out)@[prefix + i] ^ keystream_byte(
                sched.key(),
                tagv@,
                i,
            )),
        forall|i: int|
            msg_len <= i < old(in_out)@.len() ==> final(in_out)@[i] == old(in_out)@[i],
{
    let total = in_out.len();
    let width: usize = if msg_len < 128 {
        4
    } else {
        8
    };
    let nblocks = msg_len / 16;
    let mut done: usize = 0;
    while done < nblocks
        invariant
            sched.wf(),
            tagv@.len() == 16,
            total == in_out@.len(),
            4 <= width <= 8,
            nblocks == msg_len / 16,
            done <= nblocks,
            msg_len <= AES_GCM_MAX_INPUT_LEN,
            prefix + msg_len <= in_out@.len(),
            in_out@.len() == old(in_out)@.len(),
            forall|i: int|
                0 <= i < 16 * (done as int) ==> in_out@[i] == (old(in_out)@[prefix + i]
                    ^ keystream_byte(sched.key(), tagv@, i)),
            forall|i: int|
                16 * (done as int) <= i < in_out@.len() ==> in_out@[i] == old(in_out)@[i],
        decreases nblocks - done,
    {
        let gsize = if nblocks - done < width {
            nblocks - done
        } else {
            width
        };
        proof {
            assert(16 * (done as int + gsize) <= msg_len && 16 * (done as int) + 16 * (
            gsize as int) == 16 * ((done + gsize) as int) && done as int + gsize
                < 0x1_0000_0000) by (nonlinear_arith)
                requires
                    0 < gsize,
                    done + gsize <= nblocks,
                    nblocks == msg_len / 16,
                    msg_len <= AES_GCM_MAX_INPUT_LEN,
            ;
        }
        let mut cbs: Vec<u8> = Vec::new();
        let mut b: usize = 0;
        while b < gsize
            invariant
                b <= gsize,
                tagv@.len() == 16,
                done as int + gsize < 0x1_0000_0000,
                cbs@.len() == 16 * (b as int),
                forall|z: int|
                    0 <= z < b ==> #[trigger] cbs@.subrange(16 * z, 16 * z + 16) == counter_block(
                        tagv@,
                        (done + z) as nat,
                    ),
            decreases gsize - b,
        {
            let cb = make_counter_block(tagv, (done + b) as u64);
            let ghost before = cbs@;
            push_all(&mut cbs, cb.counter.as_slice());
            proof {
                assert forall|z: int| 0 <= z < b + 1 implies #[trigger] cbs@.subrange(
                    16 * z,
                    16 * z + 16,
                ) == counter_block(tagv@, (done + z) as nat) by {
                    if z < b {
                        assert(cbs@.subrange(16 * z, 16 * z + 16) =~= before.subrange(
                            16 * z,
                            16 * z + 16,
                        ));
                    } else {
                        assert(cbs@.subrange(16 * z, 16 * z + 16) =~= cb.counter@);
                    }
                }
            }
            b += 1;
        }
        proof {
            assert(cbs@.len() % 16 == 0 && cbs@.len() / 16 == gsize as int) by (nonlinear_arith)
                requires
                    cbs@.len() == 16 * (gsize as int),
                    0 < gsize,
            ;
        }
        let mut ks = sched.encrypt_blocks(cbs.as_slice());
        let mut b2: usize = 0;
        while b2 < gsize
            invariant
                b2 <= gsize,
                sched.wf(),
                tagv@.len() == 16,
                total == in_out@.len(),
                16 * (done as int + gsize) <= msg_len,
                prefix + msg_len <= in_out@.len(),
                in_out@.len() == old(in_out)@.len(),
                ks@.len() == 16 * (gsize as int),
                cbs@.len() == 16 * (gsize as int),
                forall|z: int|
                    0 <= z < gsize ==> #[trigger] ks@.subrange(16 * z, 16 * z + 16)
                        == crate::model::aes_enc(
                        sched.key(),
                        counter_block(tagv@, (done + z) as nat),
                    ),
                forall|i: int|
                    0 <= i < 16 * (done as int) + 16 * (b2 as int) ==> in_out@[i] == (old(
                        in_out,
                    )@[prefix + i] ^ keystream_byte(sched.key(), tagv@, i)),
                forall|i: int|
                    16 * (done as int) + 16 * (b2 as int) <= i < in_out@.len() ==> in_out@[i]
                        == old(in_out)@[i],
            decreases gsize - b2,
        {
            let mut t: usize = 0;
            while t < 16
                invariant
                    t <= 16,
                    b2 < gsize,
                    sched.wf(),
                    tagv@.len() == 16,
                    total == in_out@.len(),
                    16 * (done as int + gsize) <= msg_len,
                    prefix + msg_len <= in_out@.len(),
                    in_out@.len() == old(in_out)@.len(),
                    ks@.len() == 16 * (gsize as int),
                    forall|z: int|
                        0 <= z < gsize ==> #[trigger] ks@.subrange(16 * z, 16 * z + 16)
                            == crate::model::aes_enc(
                            sched.key(),
                            counter_block(tagv@, (done + z) as nat),
                        ),
                    forall|i: int|
                        0 <= i < 16 * (done as int) + 16 * (b2 as int) + t ==> in_out@[i] == (old(
                            in_out,
                        )@[prefix + i] ^ keystream_byte(sched.key(), tagv@, i)),
                    forall|i: int|
                        16 * (done as int) + 16 * (b2 as int) + t <= i < in_out@.len()
                            ==> in_out@[i] == old(in_out)@[i],
                decreases 16 - t,
            {
                proof {
                    assert(16 * (b2 as int) + t < 16 * (gsize as int) && 16 * (done as int) + 16
                        * (b2 as int) + t < msg_len) by (nonlinear_arith)
                        requires
                            b2 < gsize,
                            0 <= t < 16,
                            16 * (done as int + gsize) <= msg_len,
                    ;
                }
                let idx = 16 * done + 16 * b2 + t;
                let b3 = in_out[prefix + idx];
                let k = ks[16 * b2 + t];
                in_out[idx] = b3 ^ k;
                proof {
                    let bi = b2 as int;
                    let block = ks@.subrange(16 * bi, 16 * bi + 16);
                    assert(ks@[16 * bi + t] == block[t as int]);
                    assert((16 * (done as int) + 16 * bi + t) / 16 == done as int + bi && (16 * (
                    done as int) + 16 * bi + t) % 16 == t as int) by (nonlinear_arith)
                        requires
                            0 <= t < 16,
                            0 <= done as int,
                            0 <= bi,
                    ;
                    assert(keystream_byte(sched.key(), tagv@, idx as int) == ks@[16 * bi + t]);
                }
                t += 1;
            }
            proof {
                assert(16 * (done as int) + 16 * (b2 as int) + 16 == 16 * (done as int) + 16 * ((
                b2 + 1) as int));
            }
            b2 += 1;
        }
        zeroize(&mut ks);
        zeroize(&mut cbs);
        proof {
            assert(16 * (done as int) + 16 * (gsize as int) == 16 * ((done + gsize) as int));
        }
        done += gsize;
    }
    if msg_len % 16 != 0 {
        crypt_last_block(tagv, in_out, sched, msg_len, prefix);
    }
}

/// The partial-block handler: encrypts one extra counter block, numbered by
/// the count of whole blocks, and XORs only the final `msg_len % 16` bytes.
pub(crate) fn crypt_last_block(
    tagv: &Vec<u8>,
    in_out: &mut Vec<u8>,
    sched: &KeySchedule,
    in_out_len: usize,
    in_prefix_len: usize,
)
    requires
        sched.wf(),
        tagv@.len() == 16,
        in_prefix_len + in_out_len <= old(in_out)@.len(),
        in_out_len <= AES_GCM_MAX_INPUT_LEN,
    ensures
        final(in_out)@.len() == old(in_out)@.len(),
        forall|i: int|
            in_out_len - in_out_len % 16 <= i < in_out_len ==> final(in_out)@[i] == (old(
                in_out,
            )@[in_prefix_len + i] ^ keystream_byte(sched.key(), tagv@, i)),
        forall|i: int|
            (0 <= i < in_out_len - in_out_len % 16) || (in_out_len <= i < old(in_out)@.len())
                ==> final(in_out)@[i] == old(in_out)@[i],
{
    proof {
        assert(in_out_len / 16 < 0x1_0000_0000 && 16 * (in_out_len / 16) == in_out_len
            - in_out_len % 16) by (nonlinear_arith)
            requires
                in_out_len <= AES_GCM_MAX_INPUT_LEN,
        ;
    }
    let total = in_out.len();
    let counter = make_counter_block(tagv, (in_out_len / 16) as u64);
    let mut ks = sched.encrypt_block(counter.counter.as_slice());
    let whole = in_out_len - in_out_len % 16;
    let mut i: usize = whole;
    while i < in_out_len
        invariant
            total == in_out@.len(),
            whole == in_out_len - in_out_len % 16,
            whole <= i <= in_out_len,
            in_prefix_len + in_out_len <= in_out@.len(),
            in_out@.len() == old(in_out)@.len(),
            ks@.len() == 16,
            ks@ == crate::model::aes_enc(
                sched.key(),
                counter_block(tagv@, (in_out_len / 16) as nat),
            ),
            forall|k: int|
                whole <= k < i ==> in_out@[k] == (old(in_out)@[in_prefix_len + k]
                    ^ keystream_byte(sched.key(), tagv@, k)),
            forall|k: int|
                (0 <= k < whole) || (i <= k < in_out@.len()) ==> in_out@[k] == old(in_out)@[k],
        decreases in_out_len - i,
    {
        let b = in_out[in_prefix_len + i];
        let k = ks[i - whole];
        in_out[i] = b ^ k;
        proof {
            assert((i as int) / 16 == (in_out_len as int) / 16 && (i as int) % 16 == i as int
                - whole as int) by (nonlinear_arith)
                requires
                    whole == in_out_len - in_out_len % 16,
                    whole <= i < in_out_len,
                    whole as int % 16 == 0,
            ;
            assert(keystream_byte(sched.key(), tagv@, i as int) == ks@[i as int - whole as int]);
        }
        i += 1;
    }
    zeroize(&mut ks);
}

} // verus!
