use phantom_core::crypto::{Argon2Params, CipherChoice, CryptoError};
use phantom_core::header::{HeaderError, VaultHeader, HEADER_SIZE};
use phantom_core::hmac::HmacError;
use phantom_core::input::validate_and_wrap;
use phantom_core::memory::{MemoryError, SecretBytes};
use phantom_core::shamir::ShamirError;
use phantom_core::vault::{
    chain_hmac, complete_create, complete_unlock, compute_hmac, derive_vault_data_key, prepare_create,
    prepare_unlock, random_bytes, shamir_reconstruct, shamir_split, vec_to_arr, SessionStore, VaultError,
};

fn no_lock(_: &[u8]) -> Result<(), MemoryError> {
    Ok(())
}

fn password(text: &[u8]) -> SecretBytes {
    let (secret, _) = validate_and_wrap(text.to_vec()).unwrap();
    secret
}

fn create(store: &mut SessionStore, cipher_byte: u8, pw: &[u8]) -> (u64, Vec<u8>) {
    let (cipher, params) = prepare_create(cipher_byte, 3, 65_536, 4).unwrap();
    complete_create(store, cipher, params, password(pw), &no_lock, &no_lock).unwrap()
}

fn unlock(store: &mut SessionStore, header: &[u8], pw: &[u8]) -> Result<u64, VaultError> {
    let parsed = VaultHeader::deserialize(header).unwrap();
    let request = prepare_unlock(
        &parsed.vault_id,
        &parsed.argon2_salt,
        parsed.argon2_params.t_cost,
        parsed.argon2_params.m_cost,
        parsed.argon2_params.p_cost,
        parsed.cipher.to_header_byte(),
    )
    .unwrap();
    complete_unlock(store, &request, header, password(pw), &no_lock, &no_lock)
}

#[test]
fn vault_create_then_unlock_shares_the_data_key_aes() {
    let mut store = SessionStore::new();
    let (h1, header) = create(&mut store, 0x01, b"correct horse");
    assert_eq!(h1, 1);
    assert_eq!(header.len(), HEADER_SIZE);
    let ciphertext = store.encrypt_data(h1, b"file contents", b"region-a", None).unwrap();
    let h2 = unlock(&mut store, &header, b"correct horse").unwrap();
    assert_eq!(h2, 2);
    let plaintext = store.decrypt_data(h2, &ciphertext, b"region-a", None).unwrap();
    assert_eq!(plaintext, b"file contents".to_vec());
}

#[test]
fn vault_create_then_unlock_shares_the_data_key_chacha() {
    let mut store = SessionStore::new();
    let (h1, header) = create(&mut store, 0x02, b"battery staple");
    assert_eq!(header[32], 0x02);
    let ciphertext = store.encrypt_data(h1, b"chacha contents", b"aad", Some(7)).unwrap();
    assert_eq!(ciphertext.len(), b"chacha contents".len() + 16);
    let h2 = unlock(&mut store, &header, b"battery staple").unwrap();
    let plaintext = store.decrypt_data(h2, &ciphertext, b"aad", Some(7)).unwrap();
    assert_eq!(plaintext, b"chacha contents".to_vec());
    assert!(store.decrypt_data(h2, &ciphertext, b"aad", Some(8)).is_err());
}

#[test]
fn vault_wrong_password_is_refused() {
    let mut store = SessionStore::new();
    let (_, header) = create(&mut store, 0x01, b"right password");
    let result = unlock(&mut store, &header, b"wrong password");
    assert_eq!(result, Err(VaultError::AuthenticationFailed));
    assert_eq!(
        VaultError::AuthenticationFailed.message(),
        "Incorrect password or vault is corrupted."
    );
    // Only the creating session is open.
    assert!(store.session_active(1));
    assert!(!store.session_active(2));
}

#[test]
fn vault_tampered_header_padding_is_refused() {
    let mut store = SessionStore::new();
    let (_, mut header) = create(&mut store, 0x01, b"pw");
    header[200] ^= 0x01;
    let result = unlock(&mut store, &header, b"pw");
    assert_eq!(result, Err(VaultError::AuthenticationFailed));
}

#[test]
fn vault_unlock_without_header_is_refused() {
    let mut store = SessionStore::new();
    let (_, header) = create(&mut store, 0x01, b"pw");
    let parsed = VaultHeader::deserialize(&header).unwrap();
    let request = prepare_unlock(&parsed.vault_id, &parsed.argon2_salt, 3, 65_536, 4, 0x01).unwrap();
    // Header bytes of another length cannot be authenticated.
    let result = complete_unlock(&mut store, &request, &[], password(b"pw"), &no_lock, &no_lock);
    assert_eq!(result, Err(VaultError::Header(HeaderError::InvalidLength { got: 0 })));
    let result = complete_unlock(&mut store, &request, &header[..255], password(b"pw"), &no_lock, &no_lock);
    assert_eq!(result, Err(VaultError::Header(HeaderError::InvalidLength { got: 255 })));
    assert!(!store.session_active(2));
}

#[test]
fn vault_session_key_lock_state_follows_the_lock_call() {
    let refuse = |_: &[u8]| -> Result<(), MemoryError> { Err(MemoryError::MunlockFailed { errno: 1 }) };
    let mut store = SessionStore::new();
    let (cipher, params) = prepare_create(0x01, 3, 65_536, 4).unwrap();
    let (h1, header) = complete_create(&mut store, cipher, params, password(b"pw"), &no_lock, &no_lock).unwrap();
    assert!(store.session_key(h1).unwrap().is_memory_locked());
    assert_eq!(store.session_key(h1).unwrap().len(), 32);
    let parsed = VaultHeader::deserialize(&header).unwrap();
    let request = prepare_unlock(&parsed.vault_id, &parsed.argon2_salt, 3, 65_536, 4, 0x01).unwrap();
    let h2 = complete_unlock(&mut store, &request, &header, password(b"pw"), &refuse, &no_lock).unwrap();
    assert!(!store.session_key(h2).unwrap().is_memory_locked());
    assert_eq!(
        store.session_key(h1).unwrap().expose_secret(),
        store.session_key(h2).unwrap().expose_secret()
    );
    assert!(store.session_key(99).is_none());
}

#[test]
fn vault_unlock_with_unparsable_header_reports_it() {
    let mut store = SessionStore::new();
    let request = prepare_unlock(&[1u8; 16], &[2u8; 16], 3, 65_536, 4, 0x01).unwrap();
    let result = complete_unlock(&mut store, &request, &[0u8; HEADER_SIZE], password(b"pw"), &no_lock, &no_lock);
    assert_eq!(result, Err(VaultError::Header(HeaderError::InvalidMagic)));
    assert!(!store.session_active(1));
}

#[test]
fn vault_prepare_unlock_checks_in_order() {
    let r = prepare_unlock(&[0u8; 15], &[0u8; 3], 0, 0, 0, 0x09);
    assert_eq!(r.err(), Some(VaultError::WrongLength { name: "vault_id", expected: 16, got: 15 }));
    let r = prepare_unlock(&[0u8; 16], &[0u8; 3], 0, 0, 0, 0x09);
    assert_eq!(r.err(), Some(VaultError::WrongLength { name: "salt", expected: 16, got: 3 }));
    let r = prepare_unlock(&[0u8; 16], &[0u8; 16], 0, 0, 0, 0x09);
    assert_eq!(r.err(), Some(VaultError::UnknownCipher { byte: 0x09 }));
    let r = prepare_unlock(&[0u8; 16], &[0u8; 16], 2, 65_536, 4, 0x02);
    assert_eq!(
        r.err(),
        Some(VaultError::Crypto(CryptoError::Argon2ParamBelowMinimum {
            param: "t_cost",
            minimum: 3,
            got: 2
        }))
    );
    let q = prepare_unlock(&[5u8; 16], &[6u8; 16], 3, 65_536, 4, 0x02).unwrap();
    assert_eq!(q.vault_id, [5u8; 16]);
    assert_eq!(q.salt, [6u8; 16]);
    assert_eq!(q.cipher, CipherChoice::ChaCha20Poly1305);
    assert_eq!(q.params, Argon2Params { t_cost: 3, m_cost: 65_536, p_cost: 4 });
}

#[test]
fn vault_prepare_create_checks_in_order() {
    assert_eq!(prepare_create(0x00, 0, 0, 0).err(), Some(VaultError::UnknownCipher { byte: 0x00 }));
    assert_eq!(
        prepare_create(0x01, 3, 1024, 4).err(),
        Some(VaultError::Crypto(CryptoError::Argon2ParamBelowMinimum {
            param: "m_cost",
            minimum: 65_536,
            got: 1024
        }))
    );
    assert_eq!(
        prepare_create(0x01, 3, 65_536, 4).unwrap(),
        (CipherChoice::AesGcmSiv, Argon2Params { t_cost: 3, m_cost: 65_536, p_cost: 4 })
    );
}

#[test]
fn vault_create_with_parameters_argon2_refuses() {
    let mut store = SessionStore::new();
    // 65536 KiB is less than 8 KiB for each of 10000 lanes.
    let params = Argon2Params { t_cost: 3, m_cost: 65_536, p_cost: 10_000 };
    let result = complete_create(&mut store, CipherChoice::AesGcmSiv, params, password(b"pw"), &no_lock, &no_lock);
    match result {
        Err(VaultError::Crypto(CryptoError::Argon2Failed { .. })) => {}
        _ => panic!("expected an Argon2 failure"),
    }
    assert!(!store.session_active(1));
    assert_eq!(store.lock_all_sessions(), 0);
}

#[test]
fn vault_sessions_lock_and_unknown_handles() {
    let mut store = SessionStore::new();
    assert_eq!(store.encrypt_data(1, b"x", b"", None), Err(VaultError::InvalidSession));
    assert_eq!(store.decrypt_data(1, b"x", b"", None), Err(VaultError::InvalidSession));
    assert_eq!(VaultError::InvalidSession.message(), "Invalid or expired session handle");
    let (h1, header) = create(&mut store, 0x01, b"pw");
    let h2 = unlock(&mut store, &header, b"pw").unwrap();
    assert!(store.session_active(h1) && store.session_active(h2));
    store.lock_session(h1);
    assert!(!store.session_active(h1));
    assert!(store.session_active(h2));
    assert_eq!(store.encrypt_data(h1, b"x", b"", None), Err(VaultError::InvalidSession));
    store.lock_session(999);
    assert_eq!(store.lock_all_sessions(), 1);
    assert!(!store.session_active(h2));
    assert_eq!(store.lock_all_sessions(), 0);
}

#[test]
fn vault_chacha_session_needs_a_write_counter() {
    let mut store = SessionStore::new();
    let (h, _) = create(&mut store, 0x02, b"pw");
    match store.encrypt_data(h, b"x", b"", None) {
        Err(VaultError::Crypto(CryptoError::EncryptionFailed { detail })) => {
            assert_eq!(detail, "ChaCha20 requires write_counter")
        }
        other => panic!("unexpected {:?}", other),
    }
    assert_eq!(
        store.decrypt_data(h, &[0u8; 32], b"", None),
        Err(VaultError::Crypto(CryptoError::DecryptionFailed))
    );
}

#[test]
fn vault_data_key_and_nonce_base() {
    let (master, _) = SecretBytes::new(vec![0x5Au8; 32]).unwrap();
    let (key, base) = derive_vault_data_key(master, &[3u8; 16]).unwrap();
    assert_eq!(key.len(), 32);
    assert_eq!(&key.expose_secret()[8..32], &base[..]);
    assert_ne!(key.expose_secret(), &[0x5Au8; 32][..]);
    let (master2, _) = SecretBytes::new(vec![0x5Au8; 32]).unwrap();
    let (key2, base2) = derive_vault_data_key(master2, &[3u8; 16]).unwrap();
    assert_eq!(key.ct_eq(&key2), Ok(true));
    assert_eq!(base, base2);
    let (master3, _) = SecretBytes::new(vec![0x5Au8; 32]).unwrap();
    let (key3, _) = derive_vault_data_key(master3, &[4u8; 16]).unwrap();
    assert_eq!(key.ct_eq(&key3), Ok(false));
}

#[test]
fn vault_vec_to_arr() {
    let a: [u8; 4] = vec_to_arr(&[1, 2, 3, 4], "four").unwrap();
    assert_eq!(a, [1, 2, 3, 4]);
    let e = vec_to_arr::<4>(&[1, 2, 3], "four").unwrap_err();
    assert_eq!(e, VaultError::WrongLength { name: "four", expected: 4, got: 3 });
    assert_eq!(e.message(), "four must be 4 bytes, got 3");
}

#[test]
fn vault_shamir_split_and_reconstruct() {
    let secret = vec![0x3Cu8; 32];
    let shares = shamir_split(secret.clone(), 3, 5).unwrap();
    assert_eq!(shares.len(), 5);
    for (i, s) in shares.iter().enumerate() {
        assert_eq!(s.len(), 33);
        assert_eq!(s[0] as usize, i + 1);
    }
    let picked = vec![shares[4].clone(), shares[1].clone(), shares[3].clone()];
    assert_eq!(shamir_reconstruct(picked, 3).unwrap(), secret);
    let too_few = vec![shares[0].clone(), shares[1].clone()];
    assert_eq!(
        shamir_reconstruct(too_few, 3),
        Err(VaultError::Shamir(ShamirError::InsufficientShares { needed: 3, got: 2 }))
    );
    assert_eq!(shamir_split(vec![1u8; 31], 2, 3), Err(VaultError::SecretLength { got: 31 }));
    assert_eq!(VaultError::SecretLength { got: 31 }.message(), "Secret must be 32 bytes, got 31");
    assert_eq!(
        shamir_split(vec![1u8; 32], 1, 3),
        Err(VaultError::Shamir(ShamirError::ThresholdTooLow { got: 1 }))
    );
}

#[test]
fn vault_shamir_reconstruct_damaged_shares() {
    let shares = shamir_split(vec![9u8; 32], 2, 3).unwrap();
    let short = vec![shares[0].clone(), vec![2u8]];
    assert_eq!(shamir_reconstruct(short, 2), Err(VaultError::Shamir(ShamirError::ReconstructionFailed)));
    let same_point = vec![shares[0].clone(), shares[0].clone()];
    assert_eq!(
        shamir_reconstruct(same_point, 2),
        Err(VaultError::Shamir(ShamirError::ReconstructionFailed))
    );
    let mut longer0 = shares[0].clone();
    longer0.push(0);
    let mut longer1 = shares[1].clone();
    longer1.push(0);
    assert_eq!(
        shamir_reconstruct(vec![longer0, longer1], 2),
        Err(VaultError::Shamir(ShamirError::WrongReconstructedLength { expected: 32, got: 33 }))
    );
}

#[test]
fn vault_hmac_operations() {
    assert_eq!(compute_hmac(vec![1u8; 31], b"data"), Err(VaultError::HmacKeyLength { got: 31 }));
    assert_eq!(VaultError::HmacKeyLength { got: 31 }.message(), "HMAC key must be 32 bytes, got 31");
    assert_eq!(compute_hmac(vec![1u8; 32], b""), Err(VaultError::Hmac(HmacError::EmptyData)));
    let tag = compute_hmac(vec![1u8; 32], b"data").unwrap();
    assert_eq!(tag.len(), 32);
    assert_eq!(chain_hmac(vec![1u8; 5], b"e", &[0u8; 32]), Err(VaultError::ChainKeyLength));
    assert_eq!(VaultError::ChainKeyLength.message(), "HMAC key must be 32 bytes");
    assert_eq!(
        chain_hmac(vec![1u8; 32], b"e", &[0u8; 31]),
        Err(VaultError::WrongLength { name: "prev_hmac", expected: 32, got: 31 })
    );
    let chained = chain_hmac(vec![1u8; 32], b"data", &[7u8; 32]).unwrap();
    let mut joined = b"data".to_vec();
    joined.extend_from_slice(&[7u8; 32]);
    assert_eq!(chained, compute_hmac(vec![1u8; 32], &joined).unwrap());
}

#[test]
fn vault_random_bytes() {
    let a = random_bytes(48).unwrap();
    let b = random_bytes(48).unwrap();
    assert_eq!(a.len(), 48);
    assert_ne!(a, b);
    assert_eq!(random_bytes(0).unwrap().len(), 0);
}

#[test]
fn vault_error_messages() {
    assert_eq!(VaultError::UnknownCipher { byte: 0x0A }.message(), "Unknown cipher byte: 0x0A");
    assert_eq!(
        VaultError::Shamir(ShamirError::NoSharesProvided).message(),
        "No shares were provided for reconstruction."
    );
    assert_eq!(
        VaultError::Header(HeaderError::InvalidLength { got: 3 }).message(),
        HeaderError::InvalidLength { got: 3 }.message()
    );
}
