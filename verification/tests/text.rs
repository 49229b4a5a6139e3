use base64::Engine;
use base64::engine::general_purpose::URL_SAFE_NO_PAD;
use rcli::Blake3;
use rcli::Ed25519Signer;
use rcli::ProcessError;
use rcli::TextSignFormat;
use rcli::TextSigner;
use rcli::TextTryNew;
use rcli::TextVerifier;
use rcli::process_text_key_generate;
use rcli::process_text_sign;
use rcli::process_text_verify;

const KEY: &[u8] = b"@%1Ak9MmS#F6%dGZQt7y!WpTjX2c&vUe";
const MESSAGE: &[u8] = b"hello world";

#[test]
fn test_process_text_sign_blake3() {
    let key32: &[u8; 32] = KEY.try_into().unwrap();
    let expected_sig = blake3::keyed_hash(key32, MESSAGE);
    let expected = URL_SAFE_NO_PAD.encode(expected_sig.as_bytes());
    let sig = process_text_sign(MESSAGE, KEY, TextSignFormat::Blake3).unwrap();
    let encode = URL_SAFE_NO_PAD.encode(sig);
    assert_eq!(expected, encode);
}

#[test]
fn test_process_text_verify_blake3() {
    let key32: &[u8; 32] = KEY.try_into().unwrap();
    let encoded_sig = URL_SAFE_NO_PAD.encode(blake3::keyed_hash(key32, MESSAGE).as_bytes());
    let sig = URL_SAFE_NO_PAD.decode(encoded_sig).unwrap();
    let ret = process_text_verify(MESSAGE, KEY, &sig, TextSignFormat::Blake3).unwrap();
    assert!(ret);
}

#[test]
fn test_process_text_sign_ed25519() {
    let seed: &[u8; 32] = KEY.try_into().unwrap();
    let sk = ed25519_dalek::SigningKey::from_bytes(seed);
    let expected_sig = ed25519_dalek::Signer::sign(&sk, MESSAGE);
    let expected = URL_SAFE_NO_PAD.encode(expected_sig.to_bytes());
    let sig = process_text_sign(MESSAGE, KEY, TextSignFormat::Ed25519).unwrap();
    let encode = URL_SAFE_NO_PAD.encode(sig);
    assert_eq!(expected, encode);
}

#[test]
fn test_process_text_verify_ed25519() {
    let seed: &[u8; 32] = KEY.try_into().unwrap();
    let sk = ed25519_dalek::SigningKey::from_bytes(seed);
    let pk = sk.verifying_key().to_bytes();
    let sig = process_text_sign(MESSAGE, KEY, TextSignFormat::Ed25519).unwrap();
    let ret = process_text_verify(MESSAGE, &pk, &sig, TextSignFormat::Ed25519).unwrap();
    assert!(ret);
}

#[test]
fn keyed_hash_known_answer() {
    // Pins the keyed-hash scheme against the reference algorithm for a fixed
    // input: the all-zero 32-byte key and the message "hello world".
    let zero_key = [0u8; 32];
    let sig = process_text_sign(b"hello world", &zero_key, TextSignFormat::Blake3).unwrap();
    let expected: [u8; 32] = [
        0xf7, 0x0d, 0x67, 0x53, 0x03, 0x38, 0x24, 0x6a, 0x65, 0x22, 0xea, 0xe9, 0xda, 0xad,
        0x92, 0xc0, 0xdf, 0xd4, 0xbc, 0xf4, 0xe5, 0x11, 0x60, 0x2d, 0x96, 0xe9, 0xaf, 0xd1,
        0xd2, 0x21, 0x04, 0x79,
    ];
    assert_eq!(sig.as_slice(), &expected);
    let reference = blake3::keyed_hash(&zero_key, b"hello world");
    assert_eq!(sig.as_slice(), reference.as_bytes());
}

#[test]
fn keyed_hash_round_trip_all_keys_of_test_set() {
    let keys: [[u8; 32]; 2] = [[0u8; 32], [0xab; 32]];
    for key in keys {
        let sig = process_text_sign(MESSAGE, &key, TextSignFormat::Blake3).unwrap();
        assert!(process_text_verify(MESSAGE, &key, &sig, TextSignFormat::Blake3).unwrap());
    }
}

#[test]
fn sign_deterministic_both_schemes() {
    let s1 = process_text_sign(MESSAGE, KEY, TextSignFormat::Blake3).unwrap();
    let s2 = process_text_sign(MESSAGE, KEY, TextSignFormat::Blake3).unwrap();
    assert_eq!(s1, s2);
    let e1 = process_text_sign(MESSAGE, KEY, TextSignFormat::Ed25519).unwrap();
    let e2 = process_text_sign(MESSAGE, KEY, TextSignFormat::Ed25519).unwrap();
    assert_eq!(e1, e2);
}

#[test]
fn bit_flip_rejected_blake3() {
    let sig = process_text_sign(MESSAGE, KEY, TextSignFormat::Blake3).unwrap();
    for byte in 0..sig.len() {
        for bit in 0..8 {
            let mut tampered = sig.clone();
            tampered[byte] ^= 1u8 << bit;
            let ret =
                process_text_verify(MESSAGE, KEY, &tampered, TextSignFormat::Blake3).unwrap();
            assert!(!ret);
        }
    }
}

#[test]
fn bit_flip_rejected_ed25519() {
    let seed: &[u8; 32] = KEY.try_into().unwrap();
    let pk = ed25519_dalek::SigningKey::from_bytes(seed).verifying_key().to_bytes();
    let sig = process_text_sign(MESSAGE, KEY, TextSignFormat::Ed25519).unwrap();
    for byte in 0..sig.len() {
        let mut tampered = sig.clone();
        tampered[byte] ^= 1;
        let ret = process_text_verify(MESSAGE, &pk, &tampered, TextSignFormat::Ed25519).unwrap();
        assert!(!ret);
    }
}

#[test]
fn wrong_public_key_rejected() {
    let bundle_a = process_text_key_generate(TextSignFormat::Ed25519).unwrap();
    let bundle_b = process_text_key_generate(TextSignFormat::Ed25519).unwrap();
    let sig = process_text_sign(MESSAGE, &bundle_a[0].1, TextSignFormat::Ed25519).unwrap();
    let with_right = process_text_verify(MESSAGE, &bundle_a[1].1, &sig, TextSignFormat::Ed25519);
    assert!(with_right.unwrap());
    let with_wrong = process_text_verify(MESSAGE, &bundle_b[1].1, &sig, TextSignFormat::Ed25519);
    assert!(!with_wrong.unwrap());
}

#[test]
fn key_length_boundary() {
    let short = [7u8; 31];
    let r = process_text_sign(MESSAGE, &short, TextSignFormat::Blake3);
    assert_eq!(r.unwrap_err(), ProcessError::KeyFormat);
    let r = process_text_sign(MESSAGE, &short, TextSignFormat::Ed25519);
    assert_eq!(r.unwrap_err(), ProcessError::KeyFormat);
    let r = process_text_verify(MESSAGE, &short, &[0u8; 32], TextSignFormat::Blake3);
    assert_eq!(r.unwrap_err(), ProcessError::KeyFormat);

    let long = [7u8; 40];
    let from_long = process_text_sign(MESSAGE, &long, TextSignFormat::Blake3).unwrap();
    let from_exact = process_text_sign(MESSAGE, &long[..32], TextSignFormat::Blake3).unwrap();
    assert_eq!(from_long, from_exact);
}

#[test]
fn wrong_signature_size_policy() {
    // Keyed hash: a wrong-size signature is simply false.
    let ret = process_text_verify(MESSAGE, KEY, &[1u8; 16], TextSignFormat::Blake3).unwrap();
    assert!(!ret);
    // Asymmetric: a wrong-size signature is a signature-format error.
    let seed: &[u8; 32] = KEY.try_into().unwrap();
    let pk = ed25519_dalek::SigningKey::from_bytes(seed).verifying_key().to_bytes();
    let r = process_text_verify(MESSAGE, &pk, &[1u8; 16], TextSignFormat::Ed25519);
    assert_eq!(r.unwrap_err(), ProcessError::SignatureFormat);
}

#[test]
fn invalid_public_key_rejected() {
    // Find a byte pattern that the reference implementation rejects as an
    // illegal curve point encoding, then check the loader rejects it too.
    let mut bad = [0u8; 32];
    let mut found = false;
    for first in 0..=255u8 {
        bad[0] = first;
        if ed25519_dalek::VerifyingKey::from_bytes(&bad).is_err() {
            found = true;
            break;
        }
    }
    assert!(found);
    let sig = [0u8; 64];
    let r = process_text_verify(MESSAGE, &bad, &sig, TextSignFormat::Ed25519);
    assert_eq!(r.unwrap_err(), ProcessError::KeyFormat);
}

#[test]
fn generate_bundle_blake3() {
    let bundle = process_text_key_generate(TextSignFormat::Blake3).unwrap();
    assert_eq!(bundle.len(), 1);
    assert_eq!(bundle[0].0, "auto_gen_blake3_key.txt");
    assert_eq!(bundle[0].1.len(), 32);
    // Loading the generated bytes back yields the same signatures.
    let sig1 = process_text_sign(MESSAGE, &bundle[0].1, TextSignFormat::Blake3).unwrap();
    let signer = Blake3::try_new(&bundle[0].1).unwrap();
    let sig2 = signer.sign(MESSAGE).unwrap();
    assert_eq!(sig1, sig2);
    assert!(signer.verify(MESSAGE, &sig1).unwrap());
}

#[test]
fn generate_bundle_ed25519() {
    let bundle = process_text_key_generate(TextSignFormat::Ed25519).unwrap();
    assert_eq!(bundle.len(), 2);
    assert_eq!(bundle[0].0, "auto_gen_ed25519.sk");
    assert_eq!(bundle[1].0, "auto_gen_ed25519.pk");
    assert_eq!(bundle[0].1.len(), 32);
    assert_eq!(bundle[1].1.len(), 32);
    let sig = process_text_sign(MESSAGE, &bundle[0].1, TextSignFormat::Ed25519).unwrap();
    assert!(process_text_verify(MESSAGE, &bundle[1].1, &sig, TextSignFormat::Ed25519).unwrap());
}

#[test]
fn scheme_objects_direct() {
    let signer = Ed25519Signer::try_new(KEY).unwrap();
    let sig = signer.sign(MESSAGE).unwrap();
    assert_eq!(sig.len(), 64);
    let new_built = Ed25519Signer::new((*KEY).try_into().unwrap());
    assert_eq!(new_built.sign(MESSAGE).unwrap(), sig);
    let b = Blake3::new((*KEY).try_into().unwrap());
    assert_eq!(b.sign(MESSAGE).unwrap().len(), 32);
}
