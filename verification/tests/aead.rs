use aes_gcm_siv::{
    aes_128_gcm_siv, aes_256_gcm_siv, aes_gcm_siv_open, aes_gcm_siv_seal, detect_features, init,
    init_128, init_256, open_accelerated, open_fallback, seal_accelerated, seal_fallback, Aad,
    AlgorithmID, Features, Nonce, Variant, AES_GCM_MAX_INPUT_LEN, TAG_LEN,
};

fn unhex(s: &str) -> Vec<u8> {
    let digits: Vec<u8> = s
        .bytes()
        .map(|b| match b {
            b'0'..=b'9' => b - b'0',
            b'a'..=b'f' => b - b'a' + 10,
            b'A'..=b'F' => b - b'A' + 10,
            _ => panic!("not a hex digit"),
        })
        .collect();
    digits.chunks(2).map(|p| (p[0] << 4) | p[1]).collect()
}

fn seal_with(
    key_bytes: &[u8],
    variant: Variant,
    nonce: &[u8],
    aad: &[u8],
    pt: &[u8],
    accelerated: bool,
) -> (Vec<u8>, Vec<u8>) {
    let feats = Features { accelerated };
    let key = init(&key_bytes.to_vec(), variant, feats).unwrap();
    let nonce = Nonce::try_assume_unique_for_key(&nonce.to_vec()).unwrap();
    let aad = aad.to_vec();
    let mut in_out = pt.to_vec();
    let tag = aes_gcm_siv_seal(&key, &nonce, Aad(&aad), &mut in_out, feats);
    (in_out, tag.0)
}

fn open_with(
    key_bytes: &[u8],
    variant: Variant,
    nonce: &[u8],
    aad: &[u8],
    prefix: usize,
    buf: &[u8],
    accelerated: bool,
) -> (Vec<u8>, Vec<u8>) {
    let feats = Features { accelerated };
    let key = init(&key_bytes.to_vec(), variant, feats).unwrap();
    let nonce = Nonce::try_assume_unique_for_key(&nonce.to_vec()).unwrap();
    let aad = aad.to_vec();
    let mut in_out = buf.to_vec();
    let tag = aes_gcm_siv_open(&key, &nonce, Aad(&aad), prefix, &mut in_out, feats);
    let msg_len = buf.len() - TAG_LEN - prefix;
    (in_out[..msg_len].to_vec(), tag.0)
}

fn demo_key(n: usize) -> Vec<u8> {
    (0..n).map(|i| (i * 7 + 3) as u8).collect()
}

fn demo_nonce() -> Vec<u8> {
    (0..12).map(|i| (i * 11 + 1) as u8).collect()
}

fn demo_bytes(n: usize) -> Vec<u8> {
    (0..n).map(|i| (i * 13 + 5) as u8).collect()
}

#[test]
fn test_data_alignments() {
    // KEY: ee8e1ed9ff2540ae8f2ba9f50bc2f27c
    // NONCE: 752abad3e0afb5f434dc4310
    // IN: "Hello world"
    // AD: "example"
    // CT: 5d349ead175ef6b1def6fd
    // TAG: 4fbcdeb7e4793f4a1d7e4faa70100af1

    // SEAL
    let key: u128 = 0xee8e1ed9ff2540ae8f2ba9f50bc2f27c;
    let mut user_key: [u8; 18] = [0u8; 18]; // padded with left 0 and right 0 in the key
    user_key[1..17].copy_from_slice(&key.to_be_bytes());
    let key = init(
        &user_key[1..17].to_vec(),
        Variant::AES_128,
        detect_features(),
    )
    .unwrap();

    let nonce: u128 = 0x752abad3e0afb5f434dc4310; // padding with garbage from 0..4 bytes
    let nonce = nonce.to_be_bytes();
    let nonce = Nonce::try_assume_unique_for_key(&nonce[4..16].to_vec()).unwrap();

    let aad = String::from("00example00");
    let aad = aad.as_bytes();
    let aad = aad[2..9].to_vec();

    let input = String::from("00Hello world00");
    let mut in_out = input.as_bytes()[2..13].to_vec();
    let tag = aes_gcm_siv_seal(&key, &nonce, Aad(&aad), &mut in_out, detect_features());
    let result_tag: u128 = 0x4fbcdeb7e4793f4a1d7e4faa70100af1;
    let result_cipher_text: u128 = 0x5d349ead175ef6b1def6fd;

    // Tag is equal
    assert_eq!(&result_tag.to_be_bytes()[..], &tag.0[..]);
    // Cipher text is equal
    assert_eq!(&result_cipher_text.to_be_bytes()[5..16], &in_out[..]);

    // OPEN
    let key = init(
        &user_key[1..17].to_vec(),
        Variant::AES_128,
        detect_features(),
    )
    .unwrap();
    let cipher_text = &result_cipher_text.to_be_bytes()[5..16];
    let aad = String::from("00example00");
    let aad = aad.as_bytes();
    let aad = aad[2..9].to_vec();

    let nonce: u128 = 0x752abad3e0afb5f434dc4310; // padding with garbage from 0..4 bytes
    let nonce = nonce.to_be_bytes();
    let nonce = Nonce::try_assume_unique_for_key(&nonce[4..16].to_vec()).unwrap();
    let mut in_out = vec![0u8; 27]; // in_out is 11 + tag is 16
    in_out[0..11].copy_from_slice(cipher_text);
    in_out[11..27].copy_from_slice(&tag.0);
    let tag = aes_gcm_siv_open(&key, &nonce, Aad(&aad), 0, &mut in_out, detect_features());
    let result_plain_text = String::from("Hello world");

    // Tag is equal
    assert_eq!(&result_tag.to_be_bytes()[..], &tag.0[..]);
    // Cipher text is equal
    assert_eq!(result_plain_text.as_bytes(), &in_out[0..11]);
}

#[test]
fn known_answer_vector_both_paths() {
    let key = unhex("ee8e1ed9ff2540ae8f2ba9f50bc2f27c");
    let nonce = unhex("752abad3e0afb5f434dc4310");
    let aad = b"example";
    let pt = b"Hello world";
    let expected_ct = unhex("5d349ead175ef6b1def6fd");
    let expected_tag = unhex("4fbcdeb7e4793f4a1d7e4faa70100af1");

    for &accel in &[false, true] {
        let (ct, tag) = seal_with(&key, Variant::AES_128, &nonce, aad, pt, accel);
        assert_eq!(ct, expected_ct);
        assert_eq!(tag, expected_tag);

        let mut buf = ct.clone();
        buf.extend_from_slice(&tag);
        let (recovered, recomputed) =
            open_with(&key, Variant::AES_128, &nonce, aad, 0, &buf, accel);
        assert_eq!(recovered, pt.to_vec());
        assert_eq!(recomputed, expected_tag);
    }
}

#[test]
fn round_trip_block_boundary_lengths() {
    let key = demo_key(16);
    let nonce = demo_nonce();
    for &aad_len in &[0usize, 15, 16, 17, 128] {
        for &pt_len in &[0usize, 15, 16, 17, 128] {
            let aad = demo_bytes(aad_len);
            let pt = demo_bytes(pt_len);
            for &accel in &[false, true] {
                let (ct, tag) = seal_with(&key, Variant::AES_128, &nonce, &aad, &pt, accel);
                assert_eq!(ct.len(), pt.len());
                let mut buf = ct.clone();
                buf.extend_from_slice(&tag);
                let (recovered, recomputed) =
                    open_with(&key, Variant::AES_128, &nonce, &aad, 0, &buf, accel);
                assert_eq!(recovered, pt, "aad {} pt {}", aad_len, pt_len);
                assert_eq!(recomputed, tag, "aad {} pt {}", aad_len, pt_len);
            }
        }
    }
}

#[test]
fn round_trip_aes_256() {
    let key = demo_key(32);
    let nonce = demo_nonce();
    let aad = demo_bytes(21);
    for &pt_len in &[0usize, 15, 16, 17, 128, 200] {
        let pt = demo_bytes(pt_len);
        for &accel in &[false, true] {
            let (ct, tag) = seal_with(&key, Variant::AES_256, &nonce, &aad, &pt, accel);
            let mut buf = ct.clone();
            buf.extend_from_slice(&tag);
            let (recovered, recomputed) =
                open_with(&key, Variant::AES_256, &nonce, &aad, 0, &buf, accel);
            assert_eq!(recovered, pt);
            assert_eq!(recomputed, tag);
        }
    }
}

#[test]
fn path_equivalence_seal_and_open() {
    let nonce = demo_nonce();
    let aad = demo_bytes(7);
    for &(variant, key_len) in &[(Variant::AES_128, 16usize), (Variant::AES_256, 32usize)] {
        let key = demo_key(key_len);
        for &pt_len in &[0usize, 1, 15, 16, 17, 31, 32, 95, 96, 97, 127, 128, 129, 200] {
            let pt = demo_bytes(pt_len);
            let (ct_p, tag_p) = seal_with(&key, variant, &nonce, &aad, &pt, false);
            let (ct_a, tag_a) = seal_with(&key, variant, &nonce, &aad, &pt, true);
            assert_eq!(ct_p, ct_a, "pt_len {}", pt_len);
            assert_eq!(tag_p, tag_a, "pt_len {}", pt_len);

            let mut buf = ct_p.clone();
            buf.extend_from_slice(&tag_p);
            let (pt_back_p, rt_p) = open_with(&key, variant, &nonce, &aad, 0, &buf, false);
            let (pt_back_a, rt_a) = open_with(&key, variant, &nonce, &aad, 0, &buf, true);
            assert_eq!(pt_back_p, pt_back_a);
            assert_eq!(rt_p, rt_a);
            assert_eq!(pt_back_p, pt);
        }
    }
}

#[test]
fn direct_path_entry_points_agree() {
    let key_bytes = demo_key(16);
    let feats = Features { accelerated: false };
    let key = init_128(&key_bytes, feats).unwrap();
    let nonce = Nonce::try_assume_unique_for_key(&demo_nonce()).unwrap();
    let aad = demo_bytes(33);
    let pt = demo_bytes(45);

    let mut buf_p = pt.clone();
    let tag_p = seal_fallback(&key, &nonce, &aad, &mut buf_p);
    let mut buf_a = pt.clone();
    let tag_a = seal_accelerated(&key, &nonce, &aad, &mut buf_a);
    assert_eq!(buf_p, buf_a);
    assert_eq!(tag_p.0, tag_a.0);

    let mut open_buf_p = buf_p.clone();
    open_buf_p.extend_from_slice(&tag_p.0);
    let mut open_buf_a = open_buf_p.clone();
    let rt_p = open_fallback(&key, &nonce, &aad, 0, &mut open_buf_p);
    let rt_a = open_accelerated(&key, &nonce, &aad, 0, &mut open_buf_a);
    assert_eq!(open_buf_p, open_buf_a);
    assert_eq!(rt_p.0, rt_a.0);
    assert_eq!(&open_buf_p[..pt.len()], &pt[..]);
}

#[test]
fn tamper_single_bit_changes_recomputed_tag() {
    let key = demo_key(16);
    let nonce = demo_nonce();
    let aad = demo_bytes(7);
    let pt = demo_bytes(20);
    let (ct, tag) = seal_with(&key, Variant::AES_128, &nonce, &aad, &pt, false);

    // Flip each bit of the ciphertext.
    for byte in 0..ct.len() {
        for bit in 0..8 {
            let mut bad_ct = ct.clone();
            bad_ct[byte] ^= 1 << bit;
            let mut buf = bad_ct;
            buf.extend_from_slice(&tag);
            let (_, recomputed) = open_with(&key, Variant::AES_128, &nonce, &aad, 0, &buf, false);
            assert_ne!(recomputed, tag, "ciphertext byte {} bit {}", byte, bit);
        }
    }

    // Flip each bit of the received tag.
    for byte in 0..tag.len() {
        for bit in 0..8 {
            let mut bad_tag = tag.clone();
            bad_tag[byte] ^= 1 << bit;
            let mut buf = ct.clone();
            buf.extend_from_slice(&bad_tag);
            let (_, recomputed) = open_with(&key, Variant::AES_128, &nonce, &aad, 0, &buf, false);
            assert_ne!(recomputed, bad_tag, "tag byte {} bit {}", byte, bit);
        }
    }

    // Flip each bit of the associated data.
    for byte in 0..aad.len() {
        for bit in 0..8 {
            let mut bad_aad = aad.clone();
            bad_aad[byte] ^= 1 << bit;
            let mut buf = ct.clone();
            buf.extend_from_slice(&tag);
            let (_, recomputed) =
                open_with(&key, Variant::AES_128, &nonce, &bad_aad, 0, &buf, false);
            assert_ne!(recomputed, tag, "aad byte {} bit {}", byte, bit);
        }
    }
}

#[test]
fn prefix_offset_decrypts_to_same_plaintext() {
    let key = demo_key(16);
    let nonce = demo_nonce();
    let aad = demo_bytes(9);
    let pt = demo_bytes(37);
    let (ct, tag) = seal_with(&key, Variant::AES_128, &nonce, &aad, &pt, false);

    let mut base = ct.clone();
    base.extend_from_slice(&tag);
    let (pt0, rt0) = open_with(&key, Variant::AES_128, &nonce, &aad, 0, &base, false);
    assert_eq!(pt0, pt);

    for &(prefix, accel) in &[(1usize, false), (3, false), (16, true), (40, true)] {
        let mut buf = vec![0xa5u8; prefix];
        buf.extend_from_slice(&ct);
        buf.extend_from_slice(&tag);
        let (ptp, rtp) = open_with(&key, Variant::AES_128, &nonce, &aad, prefix, &buf, accel);
        assert_eq!(ptp, pt0, "prefix {}", prefix);
        assert_eq!(rtp, rt0, "prefix {}", prefix);
    }
}

#[test]
fn init_rejects_wrong_key_lengths() {
    let feats = Features { accelerated: false };
    assert!(init_128(&demo_key(16), feats).is_ok());
    assert!(init_128(&demo_key(15), feats).is_err());
    assert!(init_128(&demo_key(32), feats).is_err());
    assert!(init_256(&demo_key(32), feats).is_ok());
    assert!(init_256(&demo_key(16), feats).is_err());
    assert!(init(&demo_key(17), Variant::AES_128, feats).is_err());
    assert!(init(&demo_key(31), Variant::AES_256, feats).is_err());
}

#[test]
fn nonce_must_be_twelve_bytes() {
    assert!(Nonce::try_assume_unique_for_key(&demo_bytes(12)).is_ok());
    assert!(Nonce::try_assume_unique_for_key(&demo_bytes(11)).is_err());
    assert!(Nonce::try_assume_unique_for_key(&demo_bytes(16)).is_err());
    assert!(Nonce::try_assume_unique_for_key(&demo_bytes(0)).is_err());
}

#[test]
fn algorithm_identity_constants() {
    let a128 = aes_128_gcm_siv();
    assert_eq!(a128.key_len, 16);
    assert_eq!(a128.tag_len, 16);
    assert_eq!(a128.max_input_len, AES_GCM_MAX_INPUT_LEN);
    assert_eq!(a128.id, AlgorithmID::AES_128_GCM_SIV);

    let a256 = aes_256_gcm_siv();
    assert_eq!(a256.key_len, 32);
    assert_eq!(a256.tag_len, 16);
    assert_eq!(a256.max_input_len, AES_GCM_MAX_INPUT_LEN);
    assert_eq!(a256.id, AlgorithmID::AES_256_GCM_SIV);
    assert_eq!(AES_GCM_MAX_INPUT_LEN, (4294967296u64 - 2) * 16);
}

#[test]
fn nonce_reuse_differs_per_plaintext() {
    // Distinct plaintexts under one nonce give unrelated ciphertexts: the
    // keystream is seeded by the tag, not by the nonce alone.
    let key = demo_key(16);
    let nonce = demo_nonce();
    let aad = demo_bytes(4);
    let pt1 = demo_bytes(32);
    let mut pt2 = demo_bytes(32);
    pt2[0] ^= 0xff;
    let (ct1, tag1) = seal_with(&key, Variant::AES_128, &nonce, &aad, &pt1, false);
    let (ct2, tag2) = seal_with(&key, Variant::AES_128, &nonce, &aad, &pt2, false);
    assert_ne!(tag1, tag2);
    // Under plain CTR the two ciphertexts would agree from byte 1 on.
    assert_ne!(ct1[1..], ct2[1..]);
}
