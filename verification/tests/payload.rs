use edge_agent::keys::{derive_aes_key, job_key, key_from_bytes, key_from_salt, AgentKeys, KeyError};
use edge_agent::payload::{
    decrypt_payload, encrypt_payload, encrypt_with_nonce, hash_sha256, unpad_payload, PayloadError,
    NONCE_SIZE, PADDING_TRAILER_SIZE, TAG_SIZE,
};

#[test]
fn unpad_payload_uses_original_size_trailer() {
    let original = b"PK\x03\x04zip-data";
    let mut padded = Vec::from(&original[..]);
    padded.resize(16 * 1024 * 1024 - PADDING_TRAILER_SIZE, 42);
    padded.extend_from_slice(&(original.len() as u64).to_be_bytes());

    let plain = unpad_payload(&padded).expect("payload should unpad");
    assert_eq!(plain, original);
}

#[test]
fn unpad_payload_rejects_invalid_original_size() {
    let mut padded = vec![0u8; PADDING_TRAILER_SIZE];
    padded.copy_from_slice(&(1024u64).to_be_bytes());

    let err = unpad_payload(&padded).expect_err("invalid trailer should fail");
    assert!(err.message().contains("invalid original size"));
}

#[test]
fn unpad_names_both_sizes() {
    let mut padded = vec![0u8; 3];
    padded.extend_from_slice(&4u64.to_be_bytes());
    let err = unpad_payload(&padded).unwrap_err();
    assert_eq!(err, PayloadError::InvalidOriginalSize { size: 4, len: 11 });
    assert_eq!(err.message(), "invalid original size 4 for padded payload of 11 bytes");
}

#[test]
fn unpad_reads_the_trailer_most_significant_byte_first() {
    let mut padded = vec![9u8; 300];
    padded.extend_from_slice(&[0, 0, 0, 0, 0, 0, 1, 2]);
    assert_eq!(unpad_payload(&padded).unwrap(), vec![9u8; 258]);
}

#[test]
fn unpad_accepts_the_empty_and_the_full_payload() {
    assert_eq!(unpad_payload(&[0u8; 8]).unwrap(), Vec::<u8>::new());
    let mut full = vec![1u8, 2, 3];
    full.extend_from_slice(&3u64.to_be_bytes());
    assert_eq!(unpad_payload(&full).unwrap(), vec![1u8, 2, 3]);
}

#[test]
fn unpad_rejects_a_payload_without_trailer() {
    let err = unpad_payload(&[0u8; 7]).unwrap_err();
    assert_eq!(err, PayloadError::PaddedTooShort { len: 7 });
    assert_eq!(err.message(), "padded payload is too short: 7 bytes");
}

#[test]
fn sealing_matches_the_published_vector() {
    let sealed = encrypt_with_nonce(&[0u8; 16], &[0u8; 32], &[0u8; 12]).unwrap();
    let mut expected = vec![0u8; 12];
    expected.extend_from_slice(&[
        0xce, 0xa7, 0x40, 0x3d, 0x4d, 0x60, 0x6b, 0x6e, 0x07, 0x4e, 0xc5, 0xd3, 0xba, 0xf3, 0x9d,
        0x18, 0xd0, 0xd1, 0xc8, 0xa7, 0x99, 0x99, 0x6b, 0xf0, 0x26, 0x5b, 0x98, 0xb5, 0xd4, 0x8a,
        0xb9, 0x19,
    ]);
    assert_eq!(sealed, expected);
    assert_eq!(decrypt_payload(&sealed, &[0u8; 32]).unwrap(), vec![0u8; 16]);
}

#[test]
fn decryption_undoes_encryption() {
    let key = [5u8; 32];
    for len in [0usize, 1, 16, 1000] {
        let plain = vec![7u8; len];
        let sealed = encrypt_payload(&plain, &key).unwrap();
        assert_eq!(sealed.len(), len + NONCE_SIZE + TAG_SIZE);
        assert_eq!(decrypt_payload(&sealed, &key).unwrap(), plain);
    }
}

#[test]
fn each_sealing_has_its_own_nonce() {
    let a = encrypt_payload(b"same", &[1u8; 32]).unwrap();
    let b = encrypt_payload(b"same", &[1u8; 32]).unwrap();
    assert_ne!(a[..NONCE_SIZE], b[..NONCE_SIZE]);
    assert_ne!(a, b);
}

#[test]
fn a_wrong_key_or_a_changed_byte_does_not_open() {
    let sealed = encrypt_payload(b"payload", &[1u8; 32]).unwrap();
    let err = decrypt_payload(&sealed, &[2u8; 32]).unwrap_err();
    assert_eq!(err, PayloadError::DecryptionFailed);
    assert_eq!(err.message(), "AES-256-GCM decryption failed: Error");
    let mut changed = sealed.clone();
    let last = changed.len() - 1;
    changed[last] ^= 1;
    assert_eq!(decrypt_payload(&changed, &[1u8; 32]), Err(PayloadError::DecryptionFailed));
}

#[test]
fn no_other_tag_opens() {
    for plain in [&b""[..], &b"payload"[..]] {
        let sealed = encrypt_payload(plain, &[1u8; 32]).unwrap();
        for i in sealed.len() - TAG_SIZE..sealed.len() {
            let mut changed = sealed.clone();
            changed[i] ^= 0x80;
            assert_eq!(
                decrypt_payload(&changed, &[1u8; 32]),
                Err(PayloadError::DecryptionFailed)
            );
        }
        assert_eq!(
            encrypt_with_nonce(plain, &[1u8; 32], &sealed[..NONCE_SIZE]).unwrap(),
            sealed
        );
    }
}

#[test]
fn a_short_ciphertext_is_refused() {
    let err = decrypt_payload(&[0u8; 27], &[0u8; 32]).unwrap_err();
    assert_eq!(err, PayloadError::CiphertextTooShort { len: 27 });
    assert_eq!(err.message(), "ciphertext too short: 27 bytes");
    assert_eq!(decrypt_payload(&[0u8; 28], &[0u8; 32]), Err(PayloadError::DecryptionFailed));
}

#[test]
fn encryption_error_has_its_text() {
    assert_eq!(
        PayloadError::EncryptionFailed.message(),
        "AES-256-GCM encryption failed: Error"
    );
}

#[test]
fn hashes_are_hexadecimal_sha256() {
    assert_eq!(
        hash_sha256(b"abc"),
        "ba7816bf8f01cfea414140de5dae2223b00361a396177a9cb410ff61f20015ad"
    );
    assert_eq!(
        hash_sha256(b""),
        "e3b0c44298fc1c149afbf4c8996fb92427ae41e4649b934ca495991b7852b855"
    );
}

fn shared() -> [u8; 32] {
    let mut bytes = [0u8; 32];
    for i in 0..32 {
        bytes[i] = i as u8;
    }
    bytes
}

const DERIVED: [u8; 32] = [
    38, 213, 22, 199, 219, 234, 200, 253, 64, 120, 140, 111, 240, 111, 90, 78, 250, 241, 148, 2,
    142, 63, 123, 66, 177, 131, 35, 70, 157, 88, 178, 84,
];

const BLINDED: [u8; 32] = [
    38, 212, 20, 196, 223, 239, 206, 250, 72, 113, 134, 100, 252, 98, 84, 65, 234, 224, 134, 17,
    154, 42, 109, 85, 169, 154, 57, 93, 129, 69, 172, 75,
];

#[test]
fn keys_are_derived_with_hkdf() {
    assert_eq!(derive_aes_key(&shared(), &[7u8; 32]), DERIVED);
}

#[test]
fn a_salted_key_is_blinded_with_the_shared_secret() {
    assert_eq!(key_from_salt(&shared(), &[7u8; 32]).unwrap(), BLINDED);
    for i in 0..32 {
        assert_eq!(BLINDED[i] ^ shared()[i], DERIVED[i]);
    }
}

#[test]
fn the_salt_comes_before_the_key() {
    let salt = Some("BwcHBwcHBwcHBwcHBwcHBwcHBwcHBwcHBwcHBwcHBwc=".to_string());
    let key = Some("CQkJCQkJCQkJCQkJCQkJCQkJCQkJCQkJCQkJCQkJCQk=".to_string());
    assert_eq!(job_key(&shared(), &salt, &key).unwrap(), BLINDED);
    assert_eq!(job_key(&shared(), &salt, &None).unwrap(), BLINDED);
    assert_eq!(job_key(&shared(), &None, &key).unwrap(), [9u8; 32]);
}

#[test]
fn a_job_without_key_is_refused() {
    let wanted = "no enc_key_b64 or salt_b64 in job message";
    assert_eq!(job_key(&shared(), &None, &None).unwrap_err().message(), wanted);
    let empty = Some(String::new());
    assert_eq!(job_key(&shared(), &None, &empty).unwrap_err().message(), wanted);
}

#[test]
fn a_bad_salt_is_refused() {
    let not_base64 = Some("!".to_string());
    assert_eq!(
        job_key(&shared(), &not_base64, &None).unwrap_err().message(),
        "failed to decode salt: Invalid symbol 33, offset 0."
    );
    let short = Some("CQkJCQkJCQkJCQkJCQkJCQkJCQkJCQkJCQkJCQkJCQ==".to_string());
    assert_eq!(
        job_key(&shared(), &short, &None).unwrap_err().message(),
        "invalid salt length: 31 (expected 32)"
    );
    let empty = Some(String::new());
    assert_eq!(
        job_key(&shared(), &empty, &None).unwrap_err().message(),
        "invalid salt length: 0 (expected 32)"
    );
}

#[test]
fn base64_errors_have_their_texts() {
    let shown = |salt: &str| {
        job_key(&shared(), &Some(salt.to_string()), &None).unwrap_err().message()
    };
    assert_eq!(shown("AA*A"), "failed to decode salt: Invalid symbol 42, offset 2.");
    assert_eq!(shown("AAAAA"), "failed to decode salt: Invalid input length: 5");
    assert_eq!(shown("AB=="), "failed to decode salt: Invalid last symbol 66, offset 1.");
    assert_eq!(shown("AA="), "failed to decode salt: Invalid padding");
    for salt in ["AA*A", "AAAAA", "AB==", "AA="] {
        let engine = &base64::engine::general_purpose::STANDARD;
        let error = base64::Engine::decode(engine, salt).unwrap_err();
        assert_eq!(shown(salt), format!("failed to decode salt: {}", error));
    }
}

#[test]
fn a_bad_key_is_refused() {
    let not_base64 = Some("A".to_string());
    let err = job_key(&shared(), &None, &not_base64).unwrap_err();
    assert!(matches!(err, KeyError::KeyNotBase64 { .. }));
    assert!(err.message().starts_with("failed to decode enc_key_b64: "));
    let short = Some("CQkJCQkJCQkJCQkJCQkJCQkJCQkJCQkJCQkJCQkJCQ==".to_string());
    assert_eq!(
        job_key(&shared(), &None, &short).unwrap_err().message(),
        "invalid key length: 31"
    );
    assert!(matches!(key_from_bytes(&[0u8; 33]), Err(KeyError::KeyLength { len: 33 })));
    assert_eq!(key_from_bytes(&[3u8; 32]).unwrap(), [3u8; 32]);
}

#[test]
fn both_ends_agree_on_the_secret() {
    let agent = AgentKeys::generate();
    let client = AgentKeys::generate();
    let agent_public = agent.public_key();
    let client_public = client.public_key();
    assert_ne!(agent_public, client_public);
    let a = agent.consume_shared_secret(&client_public);
    let b = client.consume_shared_secret(&agent_public);
    assert_eq!(a, b);
    assert_ne!(a, client_public);
    assert_ne!(a, agent_public);
}

#[test]
fn the_agent_agrees_with_another_implementation_of_the_peer() {
    let agent = AgentKeys::generate();
    let agent_public = x25519_dalek::PublicKey::from(agent.public_key());
    let secret = x25519_dalek::EphemeralSecret::random_from_rng(rand::rngs::OsRng);
    let public = x25519_dalek::PublicKey::from(&secret);
    let shared = secret.diffie_hellman(&agent_public);
    assert_eq!(agent.consume_shared_secret(public.as_bytes()), shared.to_bytes());
}
