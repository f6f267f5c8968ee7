//! AES-GCM-SIV: nonce-misuse-resistant authenticated encryption (RFC 8452).
//!
//! This crate verifies the seal/open orchestration layer: per-message key
//! derivation, the POLYVAL-based tag computation, the counter-mode
//! keystream that the tag seeds, and the handling of the final partial
//! block.  The raw block cipher and the POLYVAL field arithmetic are
//! consumed from the `aes` and `polyval` crates through the trusted
//! boundary in `providers`.
//!
//! Two execution paths are offered: a portable one that works a block at a
//! time, and an accelerated one that hands the providers several blocks
//! per call.  Both are verified against the same functional model, so
//! their outputs are interchangeable for identical inputs.

pub mod gcm_siv;
pub mod kdf;
pub mod keystream;
pub mod laws;
pub mod mac;
pub mod model;
pub mod providers;
pub mod scratch;
pub mod types;
pub mod util;

pub use gcm_siv::{
    aes_gcm_siv_open, aes_gcm_siv_seal, detect_features, detect_implementation,
    get_encryption_key_size, init, init_128, init_256, open_accelerated, open_fallback,
    seal_accelerated, seal_fallback, Key, KeyInner,
};
pub use keystream::Counter;
pub use scratch::{CalculatedTag, HTable};
pub use types::{
    aes_128_gcm_siv, aes_256_gcm_siv, Aad, Algorithm, AlgorithmID, Features, Implementation,
    Nonce, Tag, Unspecified, Variant, AES_GCM_MAX_INPUT_LEN, BLOCK_LEN, NONCE_LEN, TAG_LEN,
};
