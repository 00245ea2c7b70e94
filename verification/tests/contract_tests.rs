use phantom_core::crypto::{
    construct_chacha_nonce, decrypt, encrypt, derive_master_key, derive_subkey, Argon2Params, CipherChoice, CryptoError,
};
use phantom_core::header::{HeaderError, RegionLayout, VaultHeader, HEADER_AUTH_KEY_INFO, HEADER_SIZE};
use phantom_core::hmac::{chain_hmac, compute_hmac, verify_hmac_ct, HmacError};
use phantom_core::input::{confirm_password_entries, validate_and_wrap, InputError, MAX_PASSWORD_LEN};
use phantom_core::memory::{MemoryError, MlockStatus, SecretBytes};
use phantom_core::shamir::{reconstruct_secret, split_secret, ShamirError, ShamirShare};

#[test]
fn confirm_password_entries_matching() {
    let (secret, status) = confirm_password_entries(b"hunter22".to_vec(), b"hunter22".to_vec()).unwrap();
    assert_eq!(secret.expose_secret(), b"hunter22");
    assert!(!secret.is_memory_locked());
    assert!(matches!(status, MlockStatus::Unlocked { .. }));
}

#[test]
fn confirm_password_entries_refusals_in_order() {
    assert!(matches!(
        confirm_password_entries(vec![], b"x".to_vec()),
        Err(InputError::EmptyPassword)
    ));
    let long = vec![0x41u8; MAX_PASSWORD_LEN + 1];
    assert!(matches!(
        confirm_password_entries(long, b"y".to_vec()),
        Err(InputError::PasswordTooLong { max: 1024, got: 1025 })
    ));
    assert!(matches!(
        confirm_password_entries(b"abc".to_vec(), b"xyz".to_vec()),
        Err(InputError::PasswordMismatch)
    ));
    assert!(matches!(
        confirm_password_entries(b"abc".to_vec(), b"abcd".to_vec()),
        Err(InputError::PasswordMismatch)
    ));
}

#[test]
fn validate_and_wrap_too_long_reports_length() {
    match validate_and_wrap(vec![1u8; 2000]) {
        Err(e) => {
            assert_eq!(e, InputError::PasswordTooLong { max: 1024, got: 2000 });
            assert_eq!(e.message(), "Password is too long (2000 bytes, maximum is 1024 bytes).");
        }
        Ok(_) => panic!("a 2000-byte password must be refused"),
    }
}

#[test]
fn secret_bytes_texts() {
    let (secret, warning) = SecretBytes::new(vec![0xFFu8; 32]).unwrap();
    assert_eq!(secret.debug_string(), "SecretBytes { len: 32, locked: false }");
    assert_eq!(secret.display_string(), "[REDACTED SecretBytes len=32]");
    let status = MlockStatus::from(warning);
    assert_eq!(
        status,
        MlockStatus::Unlocked {
            warning: "Memory locking failed (errno 0): no lock call has been made on this secret's pages. Keys may be written to swap. See setup documentation to increase RLIMIT_MEMLOCK.".to_string()
        }
    );
}

#[test]
fn secret_bytes_zero_now_keeps_the_length() {
    let (mut a, _) = SecretBytes::new(vec![1u8, 2, 3]).unwrap();
    let (b, _) = SecretBytes::new(vec![4u8]).unwrap();
    a.zero_now();
    assert_eq!(a.len(), 3);
    assert!(!a.is_empty());
    assert_eq!(a.expose_secret(), &[0u8, 0, 0]);
    let (joined, _) = SecretBytes::concat(a, b).unwrap();
    assert_eq!(joined.expose_secret(), &[0u8, 0, 0, 4]);
}

#[test]
fn secret_bytes_record_lock() {
    let (mut s, _) = SecretBytes::new(vec![9u8; 8]).unwrap();
    assert!(!s.is_memory_locked());
    assert_eq!(s.record_lock(Ok(())), None);
    assert!(s.is_memory_locked());
    let failure = MemoryError::MlockFailed { errno: 12, message: "no memory".to_string() };
    assert_eq!(s.record_lock(Err(failure.clone())), Some(failure));
    assert!(!s.is_memory_locked());
    assert_eq!(s.expose_secret(), &[9u8; 8]);
}

#[test]
fn region_layout_validate_past_the_end_of_u64() {
    let overlapping = RegionLayout {
        region_a_offset: u64::MAX - 1,
        region_a_len: 2,
        region_b_offset: u64::MAX - 1,
        region_b_len: 1,
    };
    assert!(!overlapping.validate());
    let apart = RegionLayout { region_a_offset: 0, region_a_len: 10, region_b_offset: u64::MAX, region_b_len: u64::MAX };
    assert!(apart.validate());
}

#[test]
fn secret_bytes_ct_eq_slice_length_mismatch() {
    let (s, _) = SecretBytes::new(vec![1u8; 4]).unwrap();
    assert_eq!(s.ct_eq_slice(&[1u8; 5]), Err(MemoryError::LengthMismatch { expected: 4, got: 5 }));
}

#[test]
fn memory_error_messages() {
    assert_eq!(
        MemoryError::MunlockFailed { errno: -3 }.message(),
        "Memory unlock failed (errno -3)"
    );
    assert_eq!(MemoryError::EmptySecret.message(), "Attempted to use empty secret material");
    assert_eq!(
        MemoryError::LengthMismatch { expected: 32, got: 16 }.message(),
        "Length mismatch in constant-time comparison: expected 32 bytes, got 16 bytes"
    );
}

#[test]
fn crypto_error_messages() {
    assert_eq!(
        CryptoError::Argon2ParamBelowMinimum { param: "p_cost", minimum: 4, got: 1 }.message(),
        "KDF parameter 'p_cost' is below the security minimum (minimum: 4, provided: 1). This vault cannot be opened with these parameters."
    );
    assert_eq!(CryptoError::DecryptionFailed.message(), "Incorrect password or vault data is corrupted.");
    assert_eq!(
        CryptoError::InvalidNonceLength { expected: 12, got: 0 }.message(),
        "Invalid nonce length: expected 12, got 0"
    );
    assert_eq!(
        CryptoError::MemoryError(MemoryError::EmptySecret).message(),
        "Memory error: Attempted to use empty secret material"
    );
}

#[test]
fn header_error_messages() {
    assert_eq!(
        HeaderError::InvalidLength { got: 100 }.message(),
        "Header must be exactly 256 bytes, got 100"
    );
    assert_eq!(HeaderError::UnknownCipher { byte: 0xFF }.message(), "Unknown cipher identifier: 0xFF");
    assert_eq!(HeaderError::UnknownKdf { byte: 0x0B }.message(), "Unknown KDF identifier: 0x0B");
}

#[test]
fn shamir_error_messages() {
    assert_eq!(
        ShamirError::ThresholdTooLow { got: 1 }.message(),
        "Threshold must be at least 2, got 1"
    );
    assert_eq!(
        ShamirError::TooManyShares { got: 11 }.message(),
        "Cannot generate more than 10 shares, got 11"
    );
    assert_eq!(
        ShamirError::ThresholdExceedsShares { threshold: 5, shares: 3 }.message(),
        "Threshold (5) cannot exceed total shares (3)"
    );
    assert_eq!(
        ShamirError::InsufficientShares { needed: 3, got: 2 }.message(),
        "Need at least 3 shares to reconstruct, only 2 provided"
    );
    assert_eq!(
        ShamirError::WrongReconstructedLength { expected: 32, got: 16 }.message(),
        "Reconstructed secret has wrong length (expected 32 bytes, got 16). Shares may be corrupted."
    );
}

#[test]
fn input_and_hmac_error_messages() {
    assert_eq!(
        InputError::ReadFailed { detail: "eof".to_string() }.message(),
        "Failed to read password: eof"
    );
    assert_eq!(
        InputError::MemoryError(MemoryError::EmptySecret).message(),
        "Memory error during password handling: Attempted to use empty secret material"
    );
    assert_eq!(HmacError::EmptyData.message(), "Cannot compute HMAC of empty data.");
}

#[test]
fn shamir_share_texts_and_clone() {
    let share = ShamirShare::from_bytes(vec![1, 2, 3]);
    assert_eq!(share.debug_string(), "ShamirShare { len: 3 }");
    let copy = share.clone();
    assert_eq!(copy.as_bytes(), &[1, 2, 3]);
    assert_eq!(copy.len(), 3);
    assert!(!copy.is_empty());
    assert!(ShamirShare::from_bytes(vec![]).is_empty());
}

#[test]
fn shamir_every_pair_of_three_rebuilds() {
    let (secret, _) = SecretBytes::new((0u8..32).collect()).unwrap();
    let shares = split_secret(&secret, 2, 3).unwrap();
    for (i, s) in shares.iter().enumerate() {
        assert_eq!(s.as_bytes()[0] as usize, i + 1);
    }
    for a in 0..3 {
        for b in 0..3 {
            if a != b {
                let pair = vec![shares[a].clone(), shares[b].clone()];
                let rebuilt = reconstruct_secret(&pair, 2).unwrap();
                assert_eq!(rebuilt.expose_secret(), secret.expose_secret());
            }
        }
    }
}

#[test]
fn shamir_split_secret_of_wrong_length() {
    let (secret, _) = SecretBytes::new(vec![1u8; 33]).unwrap();
    assert!(matches!(
        split_secret(&secret, 2, 3),
        Err(ShamirError::InvalidSecretLength { expected: 32, got: 33 })
    ));
}

#[test]
fn chacha_nonce_layout() {
    let mut base = [0u8; 24];
    for (i, b) in base.iter_mut().enumerate() {
        *b = i as u8;
    }
    let n0 = construct_chacha_nonce(&base, 0).unwrap();
    assert_eq!(&n0[..], &base[..12]);
    let n = construct_chacha_nonce(&base, 0x0102).unwrap();
    assert_eq!(n[0], 0x02);
    assert_eq!(n[1], 0x01 ^ 0x01);
    assert_eq!(&n[2..12], &base[2..12]);
}

#[test]
fn cipher_byte_round_trip_for_every_byte() {
    for byte in 0u8..=255 {
        match CipherChoice::from_header_byte(byte) {
            Some(c) => assert_eq!(c.to_header_byte(), byte),
            None => assert!(byte != 0x01 && byte != 0x02),
        }
    }
}

#[test]
fn params_default_meets_minimums() {
    let p = Argon2Params::default_secure();
    assert_eq!(Argon2Params::new(p.t_cost, p.m_cost, p.p_cost), Ok(p));
}

#[test]
fn header_round_trip_with_regions_and_counter() {
    let mut header = VaultHeader::new(CipherChoice::ChaCha20Poly1305, Argon2Params::default_secure()).unwrap();
    header.set_regions(RegionLayout { region_a_offset: 256, region_a_len: 10, region_b_offset: 266, region_b_len: 5 });
    assert_eq!(header.increment_write_counter(), Ok(1));
    let bytes = header.serialize().unwrap();
    let parsed = VaultHeader::deserialize(&bytes).unwrap();
    assert_eq!(parsed.serialize().unwrap(), bytes);
    assert_eq!(parsed.write_counter, 1);
    assert_eq!(parsed.cipher, CipherChoice::ChaCha20Poly1305);
    assert_eq!(RegionLayout::zeroed(), RegionLayout { region_a_offset: 0, region_a_len: 0, region_b_offset: 0, region_b_len: 0 });
}

#[test]
fn header_hmac_stored_then_verified() {
    let mut header = VaultHeader::new(CipherChoice::AesGcmSiv, Argon2Params::default_secure()).unwrap();
    let (key, _) = SecretBytes::new(vec![0x11u8; 32]).unwrap();
    header.compute_and_store_hmac(&key).unwrap();
    assert!(header.verify_hmac(&key).is_ok());
    let raw = header.serialize().unwrap();
    assert!(header.verify_hmac_raw(&raw, &key).is_ok());
    assert_eq!(raw.len(), HEADER_SIZE);
    let (other, _) = SecretBytes::new(vec![0x12u8; 32]).unwrap();
    assert_eq!(header.verify_hmac(&other), Err(HeaderError::HmacVerificationFailed));
}

#[test]
fn hmac_known_answer() {
    // HMAC-SHA256 test case 2 of RFC 4231.
    let (key, _) = SecretBytes::new(b"Jefe".to_vec()).unwrap();
    let tag = compute_hmac(&key, b"what do ya want for nothing?").unwrap();
    let expected: [u8; 32] = [
        0x5b, 0xdc, 0xc1, 0x46, 0xbf, 0x60, 0x75, 0x4e, 0x6a, 0x04, 0x24, 0x26, 0x08, 0x95, 0x75, 0xc7,
        0x5a, 0x00, 0x3f, 0x08, 0x9d, 0x27, 0x39, 0x83, 0x9d, 0xec, 0x58, 0xb9, 0x64, 0xec, 0x38, 0x43,
    ];
    assert_eq!(tag, expected);
    assert_eq!(verify_hmac_ct(&key, b"what do ya want for nothing?", &expected), Ok(()));
    let mut wrong = expected;
    wrong[0] ^= 1;
    assert_eq!(
        verify_hmac_ct(&key, b"what do ya want for nothing?", &wrong),
        Err(HmacError::VerificationFailed)
    );
    let chained = chain_hmac(&key, b"what do ya want ", &[0u8; 32]).unwrap();
    let mut joined = b"what do ya want ".to_vec();
    joined.extend_from_slice(&[0u8; 32]);
    assert_eq!(chained, compute_hmac(&key, &joined).unwrap());
}

#[test]
fn subkey_differs_from_master_key() {
    let (master, _) = SecretBytes::new(vec![0x42u8; 32]).unwrap();
    let (k, _) = derive_subkey(&master, &[0u8; 16], &HEADER_AUTH_KEY_INFO).unwrap();
    assert_eq!(k.len(), 32);
    assert_ne!(k.expose_secret(), master.expose_secret());
}

#[test]
fn master_key_differs_from_password() {
    let params = Argon2Params::default_secure();
    let pw = vec![0x61u8; 32];
    let (password, _) = SecretBytes::new(pw.clone()).unwrap();
    let (key, status) = derive_master_key(password, &[7u8; 16], &params).unwrap();
    assert_eq!(key.len(), 32);
    assert_ne!(key.expose_secret(), pw.as_slice());
    assert!(matches!(status, MlockStatus::Unlocked { .. }));
}

#[test]
fn chacha_missing_nonce_inputs_come_before_the_key_length() {
    let (short_key, _) = SecretBytes::new(vec![1u8; 5]).unwrap();
    match encrypt(CipherChoice::ChaCha20Poly1305, &short_key, b"x", b"", None, Some(1)) {
        Err(CryptoError::EncryptionFailed { detail }) => assert_eq!(detail, "ChaCha20 requires nonce_base"),
        other => panic!("unexpected {:?}", other),
    }
    match encrypt(CipherChoice::ChaCha20Poly1305, &short_key, b"x", b"", Some(&[0u8; 24]), None) {
        Err(CryptoError::EncryptionFailed { detail }) => assert_eq!(detail, "ChaCha20 requires write_counter"),
        other => panic!("unexpected {:?}", other),
    }
    assert_eq!(
        decrypt(CipherChoice::ChaCha20Poly1305, &short_key, &[0u8; 20], b"", None, Some(1)),
        Err(CryptoError::DecryptionFailed)
    );
    assert_eq!(
        encrypt(CipherChoice::ChaCha20Poly1305, &short_key, b"x", b"", Some(&[0u8; 24]), Some(1)),
        Err(CryptoError::InvalidKeyLength { expected: 32, got: 5 })
    );
}

#[test]
fn zeroing_vectors_keeps_their_length() {
    use_zeroing(|v| phantom_core::memory::secure_zero(v));
    use_zeroing(|v| phantom_core::input::zeroize_vec(v));
}

fn use_zeroing(zero: impl Fn(&mut Vec<u8>)) {
    let mut v = vec![0xABu8; 40];
    zero(&mut v);
    assert_eq!(v, vec![0u8; 40]);
}

#[test]
fn aes_output_is_nonce_then_sealed_text() {
    let (key, _) = SecretBytes::new(vec![3u8; 32]).unwrap();
    let c = encrypt(CipherChoice::AesGcmSiv, &key, b"twelve bytes", b"aad", None, None).unwrap();
    assert_eq!(c.len(), 12 + 12 + 16);
    assert_eq!(decrypt(CipherChoice::AesGcmSiv, &key, &c, b"aad", None, None).unwrap(), b"twelve bytes".to_vec());
}
