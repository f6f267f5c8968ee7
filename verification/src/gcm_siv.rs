//! Seal/open orchestration: key construction, per-call key derivation, tag
//! computation, keystream, and the dispatch between the two execution
//! paths.  Both paths carry the same contract, so which one runs never
//! changes an output byte.

use vstd::prelude::*;
use crate::kdf::derive_keys;
use crate::keystream::{crypt, crypt_batched};
use crate::mac::{compute_tag_seed_batched, compute_tag_seed_portable};
use crate::model::{open_plaintext, open_tag, seal_ciphertext, siv_tag};
use crate::providers::{aes_hardware_accelerated, KeySchedule};
use crate::types::{
    spec_key_len, Aad, Features, Implementation, Nonce, Tag, Unspecified, Variant,
    AES_GCM_MAX_INPUT_LEN, TAG_LEN,
};
use crate::util::{push_all, push_range, zeroize};

verus! {

/// A long-term key: the AES variant, the raw key material, and the
/// schedule expanded from it once at construction.  Immutable; safe to use
/// for many seal/open calls.
pub struct Key {
    pub variant: Variant,
    bytes: Vec<u8>,
    sched: KeySchedule,
}

impl View for Key {
    type V = Seq<u8>;

    closed spec fn view(&self) -> Seq<u8> {
        self.bytes@
    }
}

impl Key {
    /// The declared AES variant.
    pub closed spec fn spec_variant(&self) -> Variant {
        self.variant
    }

    /// The key material matches the variant and the expanded schedule.
    pub closed spec fn wf(&self) -> bool {
        &&& self.bytes@.len() == spec_key_len(self.variant)
        &&& self.sched.key() == self.bytes@
        &&& self.sched.variant() == self.variant
    }

    /// Builds a key from raw bytes; fails exactly when the length does not
    /// match the declared variant, leaving nothing half-initialised.
    pub fn new(key_bytes: &Vec<u8>, variant: Variant) -> (r: Result<Key, Unspecified>)
        ensures
            (r is Ok) <==> key_bytes@.len() == spec_key_len(variant),
            r matches Ok(k) ==> k@ == key_bytes@ && k.spec_variant() == variant && k.wf(),
    {
        let expected = get_encryption_key_size(variant);
        if key_bytes.len() != expected {
            return Err(Unspecified);
        }
        let sched = KeySchedule::new(variant, key_bytes.as_slice());
        let mut bytes: Vec<u8> = Vec::new();
        push_all(&mut bytes, key_bytes.as_slice());
        Ok(Key { variant, bytes, sched })
    }
}

/// The key handle the generic AEAD layer passes back into seal and open.
pub enum KeyInner {
    AesGcmSiv(Key),
}

impl KeyInner {
    /// The key inside the handle.
    pub closed spec fn key(&self) -> Key {
        match *self {
            KeyInner::AesGcmSiv(k) => k,
        }
    }

    /// The handle holds a well-formed key.
    pub open spec fn wf(&self) -> bool {
        self.key().wf()
    }

    fn inner_key(&self) -> (k: &Key)
        ensures
            *k == self.key(),
    {
        match self {
            KeyInner::AesGcmSiv(k) => k,
        }
    }
}

/// Length in bytes of the encryption subkey (and of the raw key) for a
/// variant.
pub fn get_encryption_key_size(variant: Variant) -> (enc_key_size: usize)
    ensures
        enc_key_size == spec_key_len(variant),
{
    let enc_key_size = match variant {
        Variant::AES_128 => 16,
        Variant::AES_256 => 32,
    };
    enc_key_size
}

/// Builds a key handle for the given variant; fails exactly when the key
/// length does not match.
pub fn init(key: &Vec<u8>, variant: Variant, _features: Features) -> (r: Result<
    KeyInner,
    Unspecified,
>)
    ensures
        (r is Ok) <==> key@.len() == spec_key_len(variant),
        r matches Ok(k) ==> k.wf() && k.key()@ == key@ && k.key().spec_variant() == variant,
{
    match Key::new(key, variant) {
        Ok(k) => Ok(KeyInner::AesGcmSiv(k)),
        Err(e) => Err(e),
    }
}

/// AES-128 key construction; fails exactly when the key is not 16 bytes.
pub fn init_128(key: &Vec<u8>, features: Features) -> (r: Result<KeyInner, Unspecified>)
    ensures
        (r is Ok) <==> key@.len() == 16,
        r matches Ok(k) ==> k.wf() && k.key()@ == key@ && k.key().spec_variant() == Variant::AES_128,
{
    init(key, Variant::AES_128, features)
}

/// AES-256 key construction; fails exactly when the key is not 32 bytes.
pub fn init_256(key: &Vec<u8>, features: Features) -> (r: Result<KeyInner, Unspecified>)
    ensures
        (r is Ok) <==> key@.len() == 32,
        r matches Ok(k) ==> k.wf() && k.key()@ == key@ && k.key().spec_variant() == Variant::AES_256,
{
    init(key, Variant::AES_256, features)
}

/// Which path a capability token selects.
pub open spec fn spec_implementation(features: Features) -> Implementation {
    if features.accelerated {
        Implementation::Accelerated
    } else {
        Implementation::Portable
    }
}

/// Commits to one of the two paths; without acceleration the portable path
/// is always chosen, and it is correct on every host.
pub fn detect_implementation(features: Features) -> (r: Implementation)
    ensures
        r == spec_implementation(features),
{
    if features.accelerated {
        Implementation::Accelerated
    } else {
        Implementation::Portable
    }
}

/// Queries the host once for block-cipher acceleration.  The answer only
/// picks a path; both paths are verified against the same model.
pub fn detect_features() -> Features {
    Features { accelerated: aes_hardware_accelerated() }
}

/// Seals in place on the portable path: derives subkeys, computes the tag
/// over the plaintext, then encrypts with the tag-seeded keystream.  The
/// derived subkeys are zeroized before returning.
pub fn seal_fallback(key: &KeyInner, nonce: &Nonce, aad: &Vec<u8>, in_out: &mut Vec<u8>) -> (tag:
    Tag)
    requires
        key.wf(),
        nonce.wf(),
        aad@.len() <= AES_GCM_MAX_INPUT_LEN,
        old(in_out)@.len() <= AES_GCM_MAX_INPUT_LEN,
    ensures
        tag.0@ == siv_tag(key.key()@, nonce@, aad@, old(in_out)@),
        tag.0@.len() == 16,
        final(in_out)@ == seal_ciphertext(key.key()@, nonce@, aad@, old(in_out)@),
{
    let k = key.inner_key();
    let (mut auth_key, mut enc_key) = derive_keys(&k.sched, nonce);
    let enc_sched = KeySchedule::new(k.variant, enc_key.as_slice());
    let msg_len = in_out.len();
    let mut seed = compute_tag_seed_portable(&auth_key, nonce, aad, in_out.as_slice(), msg_len);
    proof {
        assert(old(in_out)@.subrange(0, msg_len as int) =~= old(in_out)@);
    }
    let tag_bytes = enc_sched.encrypt_block(seed.as_slice());
    crypt(in_out, 0, msg_len, &tag_bytes, &enc_sched);
    proof {
        assert(in_out@ =~= seal_ciphertext(key.key()@, nonce@, aad@, old(in_out)@));
    }
    zeroize(&mut seed);
    zeroize(&mut auth_key);
    zeroize(&mut enc_key);
    Tag(tag_bytes)
}

/// Seals in place on the accelerated path: the same derivation and tag,
/// with the hash fed six blocks at a time and the keystream encrypted in
/// four- or eight-block batches.  Byte-identical to `seal_fallback`.
pub fn seal_accelerated(key: &KeyInner, nonce: &Nonce, aad: &Vec<u8>, in_out: &mut Vec<u8>) -> (
    tag: Tag)
    requires
        key.wf(),
        nonce.wf(),
        aad@.len() <= AES_GCM_MAX_INPUT_LEN,
        old(in_out)@.len() <= AES_GCM_MAX_INPUT_LEN,
    ensures
        tag.0@ == siv_tag(key.key()@, nonce@, aad@, old(in_out)@),
        tag.0@.len() == 16,
        final(in_out)@ == seal_ciphertext(key.key()@, nonce@, aad@, old(in_out)@),
{
    let k = key.inner_key();
    let (mut auth_key, mut enc_key) = derive_keys(&k.sched, nonce);
    let enc_sched = KeySchedule::new(k.variant, enc_key.as_slice());
    let msg_len = in_out.len();
    let ct = compute_tag_seed_batched(&auth_key, nonce, aad, in_out.as_slice(), msg_len);
    proof {
        assert(old(in_out)@.subrange(0, msg_len as int) =~= old(in_out)@);
    }
    let tag_bytes = enc_sched.encrypt_block(ct.tag.as_slice());
    crypt_batched(in_out, 0, msg_len, &tag_bytes, &enc_sched);
    proof {
        assert(in_out@ =~= seal_ciphertext(key.key()@, nonce@, aad@, old(in_out)@));
    }
    zeroize(&mut auth_key);
    zeroize(&mut enc_key);
    Tag(tag_bytes)
}

/// Opens in place on the portable path: decrypts with the keystream seeded
/// by the received tag, writes plaintext at offset 0, and returns the tag
/// recomputed over that plaintext.  The authenticity comparison is the
/// caller's, in constant time; the derived subkeys are zeroized before
/// returning.
pub fn open_fallback(
    key: &KeyInner,
    nonce: &Nonce,
    aad: &Vec<u8>,
    in_prefix_len: usize,
    in_out: &mut Vec<u8>,
) -> (tag: Tag)
    requires
        key.wf(),
        nonce.wf(),
        aad@.len() <= AES_GCM_MAX_INPUT_LEN,
        in_prefix_len + TAG_LEN <= old(in_out)@.len(),
        old(in_out)@.len() <= AES_GCM_MAX_INPUT_LEN,
    ensures
        final(in_out)@.len() == old(in_out)@.len(),
        final(in_out)@ == open_plaintext(key.key()@, nonce@, old(in_out)@, in_prefix_len as nat)
            + old(in_out)@.subrange(
            old(in_out)@.len() - TAG_LEN - in_prefix_len,
            old(in_out)@.len() as int,
        ),
        tag.0@ == open_tag(key.key()@, nonce@, aad@, old(in_out)@, in_prefix_len as nat),
        tag.0@.len() == 16,
{
    let k = key.inner_key();
    let total = in_out.len();
    let msg_len = total - TAG_LEN - in_prefix_len;
    let mut tag_recv: Vec<u8> = Vec::new();
    push_range(&mut tag_recv, in_out.as_slice(), total - TAG_LEN, total);
    let (mut auth_key, mut enc_key) = derive_keys(&k.sched, nonce);
    let enc_sched = KeySchedule::new(k.variant, enc_key.as_slice());
    crypt(in_out, in_prefix_len, msg_len, &tag_recv, &enc_sched);
    proof {
        assert(in_out@.subrange(0, msg_len as int) =~= open_plaintext(
            key.key()@,
            nonce@,
            old(in_out)@,
            in_prefix_len as nat,
        ));
    }
    let mut seed = compute_tag_seed_portable(&auth_key, nonce, aad, in_out.as_slice(), msg_len);
    let tag_bytes = enc_sched.encrypt_block(seed.as_slice());
    proof {
        assert(in_out@ =~= open_plaintext(key.key()@, nonce@, old(in_out)@, in_prefix_len as nat)
            + old(in_out)@.subrange(msg_len as int, total as int));
    }
    zeroize(&mut seed);
    zeroize(&mut auth_key);
    zeroize(&mut enc_key);
    Tag(tag_bytes)
}

/// Opens in place on the accelerated path; byte-identical to
/// `open_fallback`.
pub fn open_accelerated(
    key: &KeyInner,
    nonce: &Nonce,
    aad: &Vec<u8>,
    in_prefix_len: usize,
    in_out: &mut Vec<u8>,
) -> (tag: Tag)
    requires
        key.wf(),
        nonce.wf(),
        aad@.len() <= AES_GCM_MAX_INPUT_LEN,
        in_prefix_len + TAG_LEN <= old(in_out)@.len(),
        old(in_out)@.len() <= AES_GCM_MAX_INPUT_LEN,
    ensures
        final(in_out)@.len() == old(in_out)@.len(),
        final(in_out)@ == open_plaintext(key.key()@, nonce@, old(in_out)@, in_prefix_len as nat)
            + old(in_out)@.subrange(
            old(in_out)@.len() - TAG_LEN - in_prefix_len,
            old(in_out)@.len() as int,
        ),
        tag.0@ == open_tag(key.key()@, nonce@, aad@, old(in_out)@, in_prefix_len as nat),
        tag.0@.len() == 16,
{
    let k = key.inner_key();
    let total = in_out.len();
    let msg_len = total - TAG_LEN - in_prefix_len;
    let mut tag_recv: Vec<u8> = Vec::new();
    push_range(&mut tag_recv, in_out.as_slice(), total - TAG_LEN, total);
    let (mut auth_key, mut enc_key) = derive_keys(&k.sched, nonce);
    let enc_sched = KeySchedule::new(k.variant, enc_key.as_slice());
    crypt_batched(in_out, in_prefix_len, msg_len, &tag_recv, &enc_sched);
    proof {
        assert(in_out@.subrange(0, msg_len as int) =~= open_plaintext(
            key.key()@,
            nonce@,
            old(in_out)@,
            in_prefix_len as nat,
        ));
    }
    let ct = compute_tag_seed_batched(&auth_key, nonce, aad, in_out.as_slice(), msg_len);
    let tag_bytes = enc_sched.encrypt_block(ct.tag.as_slice());
    proof {
        assert(in_out@ =~= open_plaintext(key.key()@, nonce@, old(in_out)@, in_prefix_len as nat)
            + old(in_out)@.subrange(msg_len as int, total as int));
    }
    zeroize(&mut auth_key);
    zeroize(&mut enc_key);
    Tag(tag_bytes)
}

/// Seals in place: buffer becomes ciphertext, the 16-byte tag is returned.
/// The result does not depend on which path the capability token selects.
pub fn aes_gcm_siv_seal(
    key: &KeyInner,
    nonce: &Nonce,
    aad: Aad<'_>,
    in_out: &mut Vec<u8>,
    features: Features,
) -> (tag: Tag)
    requires
        key.wf(),
        nonce.wf(),
        aad.0@.len() <= AES_GCM_MAX_INPUT_LEN,
        old(in_out)@.len() <= AES_GCM_MAX_INPUT_LEN,
    ensures
        tag.0@ == siv_tag(key.key()@, nonce@, aad.0@, old(in_out)@),
        tag.0@.len() == 16,
        final(in_out)@ == seal_ciphertext(key.key()@, nonce@, aad.0@, old(in_out)@),
{
    let Aad(aad) = aad;
    match detect_implementation(features) {
        Implementation::Portable => seal_fallback(key, nonce, aad, in_out),
        Implementation::Accelerated => seal_accelerated(key, nonce, aad, in_out),
    }
}

/// Opens in place: plaintext lands at offset 0, the tag recomputed over it
/// is returned for the caller's constant-time comparison.  The result does
/// not depend on which path the capability token selects.
pub fn aes_gcm_siv_open(
    key: &KeyInner,
    nonce: &Nonce,
    aad: Aad<'_>,
    in_prefix_len: usize,
    in_out: &mut Vec<u8>,
    features: Features,
) -> (tag: Tag)
    requires
        key.wf(),
        nonce.wf(),
        aad.0@.len() <= AES_GCM_MAX_INPUT_LEN,
        in_prefix_len + TAG_LEN <= old(in_out)@.len(),
        old(in_out)@.len() <= AES_GCM_MAX_INPUT_LEN,
    ensures
        final(in_out)@.len() == old(in_out)@.len(),
        final(in_out)@ == open_plaintext(key.key()@, nonce@, old(in_out)@, in_prefix_len as nat)
            + old(in_out)@.subrange(
            old(in_out)@.len() - TAG_LEN - in_prefix_len,
            old(in_out)@.len() as int,
        ),
        tag.0@ == open_tag(key.key()@, nonce@, aad.0@, old(in_out)@, in_prefix_len as nat),
        tag.0@.len() == 16,
{
    let Aad(aad) = aad;
    match detect_implementation(features) {
        Implementation::Portable => open_fallback(key, nonce, aad, in_prefix_len, in_out),
        Implementation::Accelerated => open_accelerated(key, nonce, aad, in_prefix_len, in_out),
    }
}

} // verus!
