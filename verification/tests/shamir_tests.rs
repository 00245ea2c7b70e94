use phantom_core::memory::SecretBytes;
use phantom_core::shamir::{
    reconstruct_secret, split_secret, ShamirError, ShamirShare, MAX_SHARES, SECRET_LEN,
};

fn make_secret(byte: u8) -> SecretBytes {
    let (s, _) = SecretBytes::new(vec![byte; SECRET_LEN]).unwrap();
    s
}

// -------------------------------------------------------------------------
// split_secret — parameter validation
// -------------------------------------------------------------------------

#[test]
fn test_split_rejects_threshold_zero() {
    let secret = make_secret(0x42);
    let result = split_secret(&secret, 0, 5);
    assert!(matches!(
        result,
        Err(ShamirError::ThresholdTooLow { got: 0 })
    ));
}

#[test]
fn test_split_rejects_threshold_one() {
    let secret = make_secret(0x42);
    let result = split_secret(&secret, 1, 5);
    assert!(matches!(
        result,
        Err(ShamirError::ThresholdTooLow { got: 1 })
    ));
}

#[test]
fn test_split_rejects_too_many_shares() {
    let secret = make_secret(0x42);
    let result = split_secret(&secret, 2, MAX_SHARES + 1);
    assert!(matches!(result, Err(ShamirError::TooManyShares { .. })));
}

#[test]
fn test_split_rejects_threshold_greater_than_shares() {
    let secret = make_secret(0x42);
    let result = split_secret(&secret, 5, 3);
    assert!(matches!(
        result,
        Err(ShamirError::ThresholdExceedsShares {
            threshold: 5,
            shares: 3
        })
    ));
}

#[test]
fn test_split_rejects_wrong_secret_length() {
    let (short_secret, _) = SecretBytes::new(vec![0x01u8; 16]).unwrap();
    let result = split_secret(&short_secret, 2, 3);
    assert!(matches!(
        result,
        Err(ShamirError::InvalidSecretLength {
            expected: 32,
            got: 16
        })
    ));
}

// -------------------------------------------------------------------------
// split_secret — successful generation
// -------------------------------------------------------------------------

#[test]
fn test_split_2_of_3_produces_three_shares() {
    let secret = make_secret(0x55);
    let shares = split_secret(&secret, 2, 3).unwrap();
    assert_eq!(shares.len(), 3);
}

#[test]
fn test_split_3_of_5_produces_five_shares() {
    let secret = make_secret(0x66);
    let shares = split_secret(&secret, 3, 5).unwrap();
    assert_eq!(shares.len(), 5);
}

#[test]
fn test_split_threshold_equals_shares() {
    // 3-of-3: all shares needed.
    let secret = make_secret(0x77);
    let shares = split_secret(&secret, 3, 3).unwrap();
    assert_eq!(shares.len(), 3);
}

#[test]
fn test_split_minimum_2_of_2() {
    let secret = make_secret(0x88);
    let shares = split_secret(&secret, 2, 2).unwrap();
    assert_eq!(shares.len(), 2);
}

#[test]
fn test_share_bytes_not_empty() {
    let secret = make_secret(0x99);
    let shares = split_secret(&secret, 2, 3).unwrap();
    for share in &shares {
        assert!(!share.is_empty());
        // Each share should be 33 bytes: 1 x-coord + 32 y-values
        assert_eq!(share.len(), 33);
    }
}

// -------------------------------------------------------------------------
// reconstruct_secret — round-trip tests
// -------------------------------------------------------------------------

#[test]
fn test_reconstruct_2_of_3_with_shares_0_1() {
    let secret = make_secret(0xAA);
    let shares = split_secret(&secret, 2, 3).unwrap();
    let two_shares = vec![shares[0].clone(), shares[1].clone()];
    let reconstructed = reconstruct_secret(&two_shares, 2).unwrap();
    assert_eq!(reconstructed.expose_secret(), secret.expose_secret());
}

#[test]
fn test_reconstruct_2_of_3_with_shares_0_2() {
    let secret = make_secret(0xBB);
    let shares = split_secret(&secret, 2, 3).unwrap();
    let two_shares = vec![shares[0].clone(), shares[2].clone()];
    let reconstructed = reconstruct_secret(&two_shares, 2).unwrap();
    assert_eq!(reconstructed.expose_secret(), secret.expose_secret());
}

#[test]
fn test_reconstruct_2_of_3_with_shares_1_2() {
    let secret = make_secret(0xCC);
    let shares = split_secret(&secret, 2, 3).unwrap();
    let two_shares = vec![shares[1].clone(), shares[2].clone()];
    let reconstructed = reconstruct_secret(&two_shares, 2).unwrap();
    assert_eq!(reconstructed.expose_secret(), secret.expose_secret());
}

#[test]
fn test_reconstruct_3_of_5_any_three() {
    let secret = make_secret(0xDD);
    let shares = split_secret(&secret, 3, 5).unwrap();

    // Try several combinations of 3.
    let combos: &[&[usize]] = &[&[0, 1, 2], &[0, 1, 3], &[0, 2, 4], &[1, 3, 4], &[2, 3, 4]];

    for combo in combos {
        let selected: Vec<ShamirShare> = combo.iter().map(|&i| shares[i].clone()).collect();

        let reconstructed = reconstruct_secret(&selected, 3).unwrap();
        assert_eq!(
            reconstructed.expose_secret(),
            secret.expose_secret(),
            "Failed for combo {:?}",
            combo
        );
    }
}

#[test]
fn test_reconstruct_all_shares_succeeds() {
    let secret = make_secret(0xEE);
    let shares = split_secret(&secret, 3, 5).unwrap();
    // Using all 5 shares when threshold is 3 is fine.
    let all: Vec<ShamirShare> = shares.iter().map(|s| s.clone()).collect();
    let reconstructed = reconstruct_secret(&all, 3).unwrap();
    assert_eq!(reconstructed.expose_secret(), secret.expose_secret());
}

#[test]
fn test_reconstruct_different_secrets_produce_different_shares() {
    let s1 = make_secret(0x01);
    let s2 = make_secret(0x02);
    let shares1 = split_secret(&s1, 2, 3).unwrap();
    let shares2 = split_secret(&s2, 2, 3).unwrap();
    // Shares for different secrets must differ.
    assert_ne!(shares1[0].as_bytes(), shares2[0].as_bytes());
}

// -------------------------------------------------------------------------
// reconstruct_secret — error cases
// -------------------------------------------------------------------------

#[test]
fn test_reconstruct_no_shares_fails() {
    let result = reconstruct_secret(&[], 3);
    assert!(matches!(result, Err(ShamirError::NoSharesProvided)));
}

#[test]
fn test_reconstruct_insufficient_shares_fails() {
    let secret = make_secret(0xFF);
    let shares = split_secret(&secret, 3, 5).unwrap();
    // Only provide 2 shares when threshold is 3.
    let two: Vec<ShamirShare> = shares[..2].iter().map(|s| s.clone()).collect();
    let result = reconstruct_secret(&two, 3);
    assert!(matches!(
        result,
        Err(ShamirError::InsufficientShares { needed: 3, got: 2 })
    ));
}

// -------------------------------------------------------------------------
// Self-test verification
// -------------------------------------------------------------------------

#[test]
fn test_self_test_runs_on_split() {
    // The self-test runs internally. If split succeeds, self-test passed.
    // Verify by ensuring the returned shares actually reconstruct correctly.
    let secret = make_secret(0x42);
    let shares = split_secret(&secret, 3, 5).unwrap();
    let first_three: Vec<ShamirShare> = shares[..3].iter().map(|s| s.clone()).collect();
    let reconstructed = reconstruct_secret(&first_three, 3).unwrap();
    assert_eq!(reconstructed.expose_secret(), secret.expose_secret());
}

// -------------------------------------------------------------------------
// Error display
// -------------------------------------------------------------------------

#[test]
fn shamir_test_error_display_not_empty() {
    let errors = vec![
        ShamirError::ThresholdTooLow { got: 1 },
        ShamirError::TooManyShares { got: 11 },
        ShamirError::ThresholdExceedsShares {
            threshold: 5,
            shares: 3,
        },
        ShamirError::InvalidSecretLength {
            expected: 32,
            got: 16,
        },
        ShamirError::SelfTestFailed,
        ShamirError::InsufficientShares { needed: 3, got: 2 },
        ShamirError::ReconstructionFailed,
        ShamirError::WrongReconstructedLength {
            expected: 32,
            got: 16,
        },
        ShamirError::NoSharesProvided,
    ];
    for e in errors {
        assert!(!e.message().is_empty());
    }
}

// -------------------------------------------------------------------------
// ShamirShare debug does not leak bytes
// -------------------------------------------------------------------------

#[test]
fn test_share_debug_does_not_leak_bytes() {
    let secret = make_secret(0x42);
    let shares = split_secret(&secret, 2, 3).unwrap();
    let debug_str = shares[0].debug_string();
    assert!(debug_str.contains("ShamirShare"));
    assert!(!debug_str.contains("bytes: ["));
}
