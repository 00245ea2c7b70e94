//! Shamir secret sharing of a 32-byte master key.
//!
//! A secret is split into `n` shares of which any `k` rebuild it; every
//! split checks itself by rebuilding the secret from its first `k` shares
//! before any share is handed out.  The arithmetic over GF(256) is the
//! `sharks` crate's.
use vstd::prelude::*;
use vstd::string::*;

use crate::memory::SecretBytes;
use crate::primitives::{
    ct_eq_bytes, differs_everywhere, distinct_share_points, is_share_selection, select_shares, share_views,
    sharks_deal, sharks_interpolation, sharks_recover, sharks_recover_accepts, ZeroizingBuffer,
    zeroizing_contents,
};
use crate::text::{decimal, push_decimal, push_text};

verus! {

/// Smallest accepted threshold `k`.
pub const MIN_THRESHOLD: u8 = 2;
/// Largest accepted number of shares `n`.
pub const MAX_SHARES: u8 = 10;
/// Length of a secret that can be split (the master key length).
pub const SECRET_LEN: usize = 32;

/// Errors of secret sharing.
#[derive(Debug, Clone, PartialEq)]
pub enum ShamirError {
    /// The threshold is below the minimum of two.
    ThresholdTooLow { got: u8 },
    /// More shares were asked for than the maximum.
    TooManyShares { got: u8 },
    /// The threshold is larger than the number of shares.
    ThresholdExceedsShares { threshold: u8, shares: u8 },
    /// The secret is not exactly 32 bytes.
    InvalidSecretLength { expected: usize, got: usize },
    /// The new shares did not rebuild the secret; none may be handed out.
    SelfTestFailed,
    /// Fewer shares than the threshold were given.
    InsufficientShares { needed: u8, got: usize },
    /// The shares could not be combined: damaged or from different secrets.
    ReconstructionFailed,
    /// The rebuilt secret does not have the secret length.
    WrongReconstructedLength { expected: usize, got: usize },
    /// No shares were given.
    NoSharesProvided,
}

impl ShamirError {
    /// The text shown to the user for this error.
    pub open spec fn message_text(&self) -> Seq<char> {
        match self {
            ShamirError::ThresholdTooLow { got } =>
                "Threshold must be at least "@ + decimal(MIN_THRESHOLD as nat) + ", got "@ + decimal(*got as nat),
            ShamirError::TooManyShares { got } =>
                "Cannot generate more than "@ + decimal(MAX_SHARES as nat) + " shares, got "@ + decimal(*got as nat),
            ShamirError::ThresholdExceedsShares { threshold, shares } =>
                "Threshold ("@ + decimal(*threshold as nat) + ") cannot exceed total shares ("@
                    + decimal(*shares as nat) + ")"@,
            ShamirError::InvalidSecretLength { expected, got } =>
                "Secret must be exactly "@ + decimal(*expected as nat) + " bytes, got "@ + decimal(*got as nat),
            ShamirError::SelfTestFailed =>
                "CRITICAL: Share generation self-test failed. All shares have been zeroed. Do not distribute any shares. Please report this as a bug."@,
            ShamirError::InsufficientShares { needed, got } =>
                "Need at least "@ + decimal(*needed as nat) + " shares to reconstruct, only "@
                    + decimal(*got as nat) + " provided"@,
            ShamirError::ReconstructionFailed =>
                "Secret reconstruction failed. Shares may be corrupted or from different vaults."@,
            ShamirError::WrongReconstructedLength { expected, got } =>
                "Reconstructed secret has wrong length (expected "@ + decimal(*expected as nat) + " bytes, got "@
                    + decimal(*got as nat) + "). Shares may be corrupted."@,
            ShamirError::NoSharesProvided => "No shares were provided for reconstruction."@,
        }
    }

    /// Renders the error as text.
    pub fn message(&self) -> (m: String)
        ensures
            m@ == self.message_text(),
    {
        let mut m = String::new();
        match self {
            ShamirError::ThresholdTooLow { got } => {
                push_text(&mut m, "Threshold must be at least ");
                push_decimal(&mut m, MIN_THRESHOLD as u64);
                push_text(&mut m, ", got ");
                push_decimal(&mut m, *got as u64);
            },
            ShamirError::TooManyShares { got } => {
                push_text(&mut m, "Cannot generate more than ");
                push_decimal(&mut m, MAX_SHARES as u64);
                push_text(&mut m, " shares, got ");
                push_decimal(&mut m, *got as u64);
            },
            ShamirError::ThresholdExceedsShares { threshold, shares } => {
                push_text(&mut m, "Threshold (");
                push_decimal(&mut m, *threshold as u64);
                push_text(&mut m, ") cannot exceed total shares (");
                push_decimal(&mut m, *shares as u64);
                push_text(&mut m, ")");
            },
            ShamirError::InvalidSecretLength { expected, got } => {
                push_text(&mut m, "Secret must be exactly ");
                push_decimal(&mut m, *expected as u64);
                push_text(&mut m, " bytes, got ");
                push_decimal(&mut m, *got as u64);
            },
            ShamirError::SelfTestFailed => {
                push_text(&mut m, "CRITICAL: Share generation self-test failed. All shares have been zeroed. Do not distribute any shares. Please report this as a bug.");
            },
            ShamirError::InsufficientShares { needed, got } => {
                push_text(&mut m, "Need at least ");
                push_decimal(&mut m, *needed as u64);
                push_text(&mut m, " shares to reconstruct, only ");
                push_decimal(&mut m, *got as u64);
                push_text(&mut m, " provided");
            },
            ShamirError::ReconstructionFailed => {
                push_text(&mut m, "Secret reconstruction failed. Shares may be corrupted or from different vaults.");
            },
            ShamirError::WrongReconstructedLength { expected, got } => {
                push_text(&mut m, "Reconstructed secret has wrong length (expected ");
                push_decimal(&mut m, *expected as u64);
                push_text(&mut m, " bytes, got ");
                push_decimal(&mut m, *got as u64);
                push_text(&mut m, "). Shares may be corrupted.");
            },
            ShamirError::NoSharesProvided => {
                push_text(&mut m, "No shares were provided for reconstruction.");
            },
        }
        m
    }
}

/// One share: an x-coordinate byte followed by one byte per secret byte
/// (33 bytes for a 32-byte secret).  It carries nothing about the vault or
/// the threshold, and its bytes are overwritten with zeros when it is
/// dropped.
pub struct ShamirShare {
    bytes: ZeroizingBuffer,
}

impl View for ShamirShare {
    type V = Seq<u8>;

    closed spec fn view(&self) -> Seq<u8> {
        zeroizing_contents(self.bytes)
    }
}

impl Clone for ShamirShare {
    fn clone(&self) -> (c: ShamirShare)
        ensures
            c@ == self@,
    {
        ShamirShare::from_bytes(vstd::slice::slice_to_vec(self.bytes.bytes()))
    }
}

impl ShamirShare {
    /// Wraps raw share bytes.
    pub fn from_bytes(bytes: Vec<u8>) -> (s: ShamirShare)
        ensures
            s@ == bytes@,
    {
        ShamirShare { bytes: ZeroizingBuffer::new(bytes) }
    }

    /// The raw share bytes.
    pub fn as_bytes(&self) -> (b: &[u8])
        ensures
            b@ == self@,
    {
        self.bytes.bytes()
    }

    /// The length of the share in bytes.
    pub fn len(&self) -> (n: usize)
        ensures
            n == self@.len(),
    {
        self.bytes.bytes().len()
    }

    /// Whether the share holds no bytes.
    pub fn is_empty(&self) -> (b: bool)
        ensures
            b == (self@.len() == 0),
    {
        self.bytes.bytes().len() == 0
    }

    /// The debugging text of a share: its length, never its bytes.
    pub open spec fn debug_text(len: nat) -> Seq<char> {
        "ShamirShare { len: "@ + decimal(len) + " }"@
    }

    /// Debugging text that never contains the share bytes.
    pub fn debug_string(&self) -> (m: String)
        ensures
            m@ == Self::debug_text(self@.len()),
    {
        let mut m = String::new();
        push_text(&mut m, "ShamirShare { len: ");
        push_decimal(&mut m, self.len() as u64);
        push_text(&mut m, " }");
        m
    }
}

/// The bytes of each share.
pub open spec fn share_bytes(shares: Seq<ShamirShare>) -> Seq<Seq<u8>> {
    shares.map_values(|s: ShamirShare| s@)
}

/// Why a split with these parameters is refused, checked in this order;
/// `None` when it is accepted.
pub open spec fn split_refusal(secret_len: nat, threshold: u8, total_shares: u8) -> Option<ShamirError> {
    if threshold < MIN_THRESHOLD {
        Some(ShamirError::ThresholdTooLow { got: threshold })
    } else if total_shares > MAX_SHARES {
        Some(ShamirError::TooManyShares { got: total_shares })
    } else if threshold > total_shares {
        Some(ShamirError::ThresholdExceedsShares { threshold, shares: total_shares })
    } else if secret_len != SECRET_LEN {
        Some(ShamirError::InvalidSecretLength { expected: SECRET_LEN, got: secret_len as usize })
    } else {
        None
    }
}

/// `shares` is a `threshold`-of-`n` sharing of `secret`: share `i` is the
/// x-coordinate `i + 1` followed by one byte per secret byte, and any
/// `threshold` or more different shares interpolate to the secret.
pub open spec fn is_sharing_of(secret: Seq<u8>, threshold: u8, shares: Seq<Seq<u8>>) -> bool {
    &&& forall|i: int| 0 <= i < shares.len() ==> (#[trigger] shares[i]).len() == secret.len() + 1
        && shares[i][0] == i + 1
    &&& forall|sel: Seq<int>| is_share_selection(sel, shares.len(), threshold as nat)
        ==> #[trigger] sharks_interpolation(select_shares(shares, sel)) == secret
}

/// What combining shares gives once their number has been checked: the
/// interpolated secret, or why the shares cannot be combined.
pub open spec fn combination(shares: Seq<Seq<u8>>, threshold: u8) -> Result<Seq<u8>, ShamirError> {
    if !sharks_recover_accepts(threshold, shares) {
        Err(ShamirError::ReconstructionFailed)
    } else if shares[0].len() != SECRET_LEN + 1 {
        Err(ShamirError::WrongReconstructedLength { expected: SECRET_LEN, got: (shares[0].len() - 1) as usize })
    } else {
        Ok(sharks_interpolation(shares))
    }
}

/// What `reconstruct_secret` gives for some share bytes and a threshold.
pub open spec fn reconstruction(shares: Seq<Seq<u8>>, threshold: u8) -> Result<Seq<u8>, ShamirError> {
    if shares.len() == 0 {
        Err(ShamirError::NoSharesProvided)
    } else if shares.len() < threshold {
        Err(ShamirError::InsufficientShares { needed: threshold, got: shares.len() as usize })
    } else {
        combination(shares, threshold)
    }
}

/// Different shares of a sharing have different x-coordinates.
proof fn lemma_selected_points(secret: Seq<u8>, threshold: u8, shares: Seq<Seq<u8>>, sel: Seq<int>)
    requires
        is_sharing_of(secret, threshold, shares),
        sel.no_duplicates(),
        forall|j: int| 0 <= j < sel.len() ==> 0 <= #[trigger] sel[j] < shares.len(),
    ensures
        distinct_share_points(select_shares(shares, sel)) == sel.len(),
{
    let picked = select_shares(shares, sel);
    let points = picked.map_values(|s: Seq<u8>| s[0]);
    assert forall|a: int, b: int| 0 <= a < points.len() && 0 <= b < points.len() && a != b
        implies points[a] != points[b] by {
        assert(shares[sel[a]][0] == sel[a] + 1);
        assert(shares[sel[b]][0] == sel[b] + 1);
    }
    assert(points.no_duplicates());
    points.unique_seq_to_set();
}

/// Any `threshold` or more different shares of a sharing of a 32-byte secret
/// rebuild that secret, in whatever order they are given.
pub proof fn law_threshold_shares_reconstruct(secret: Seq<u8>, threshold: u8, shares: Seq<Seq<u8>>, sel: Seq<int>)
    requires
        secret.len() == SECRET_LEN,
        threshold >= 1,
        is_sharing_of(secret, threshold, shares),
        is_share_selection(sel, shares.len(), threshold as nat),
    ensures
        reconstruction(select_shares(shares, sel), threshold) == Ok::<Seq<u8>, ShamirError>(secret),
{
    let picked = select_shares(shares, sel);
    lemma_selected_points(secret, threshold, shares, sel);
    assert(picked[0] == shares[sel[0]]);
    assert forall|i: int| 0 <= i < picked.len() implies #[trigger] picked[i].len() == secret.len() + 1 by {
        assert(picked[i] == shares[sel[i]]);
    }
    assert(sharks_recover_accepts(threshold, picked));
}

/// One share short of the threshold, the shares of a split do not rebuild
/// the secret: `reconstruct_secret` with the split's threshold refuses them
/// as too few, and interpolating them (as a reconstruction that claims one
/// less as threshold does) gives a value that differs from the secret in
/// every byte.
pub proof fn law_one_share_short_does_not_rebuild(secret: Seq<u8>, threshold: u8, shares: Seq<Seq<u8>>, sel: Seq<int>)
    requires
        secret.len() == SECRET_LEN,
        threshold >= 2,
        forall|s: Seq<int>| is_share_selection(s, shares.len(), (threshold - 1) as nat) && s.len() == threshold - 1
            ==> differs_everywhere(#[trigger] sharks_interpolation(select_shares(shares, s)), secret),
        is_share_selection(sel, shares.len(), (threshold - 1) as nat),
        sel.len() == threshold - 1,
    ensures
        reconstruction(select_shares(shares, sel), threshold) == Err::<Seq<u8>, ShamirError>(
            ShamirError::InsufficientShares { needed: threshold, got: (threshold - 1) as usize }),
        reconstruction(select_shares(shares, sel), (threshold - 1) as u8) != Ok::<Seq<u8>, ShamirError>(secret),
        differs_everywhere(sharks_interpolation(select_shares(shares, sel)), secret),
{
    let picked = select_shares(shares, sel);
    let v = sharks_interpolation(picked);
    assert(differs_everywhere(v, secret));
    assert(v[0] != secret[0]);
    assert(v != secret);
}

/// Splits a 32-byte secret into `total_shares` shares of which any
/// `threshold` rebuild it.  The parameters are checked in order (threshold
/// at least two, at most ten shares, threshold not above the share count,
/// 32-byte secret).  The shares are dealt with exactly this threshold:
/// `threshold - 1` different shares interpolate to a value that differs from
/// the secret in every byte.  Before returning, the first `threshold` shares are
/// combined again and compared with the secret in constant time; the
/// contract shows that this check always passes.
pub fn split_secret(secret: &SecretBytes, threshold: u8, total_shares: u8) -> (r: Result<Vec<ShamirShare>, ShamirError>)
    ensures
        r is Err <==> split_refusal(secret@.len(), threshold, total_shares) is Some,
        r matches Err(e) ==> split_refusal(secret@.len(), threshold, total_shares) == Some(e),
        r matches Ok(shares) ==> shares@.len() == total_shares
            && is_sharing_of(secret@, threshold, share_bytes(shares@)),
        r matches Ok(shares) ==> forall|sel: Seq<int>|
            is_share_selection(sel, total_shares as nat, (threshold - 1) as nat) && sel.len() == threshold - 1
            ==> differs_everywhere(#[trigger] sharks_interpolation(select_shares(share_bytes(shares@), sel)), secret@),
{
    if threshold < MIN_THRESHOLD {
        return Err(ShamirError::ThresholdTooLow { got: threshold });
    }
    if total_shares > MAX_SHARES {
        return Err(ShamirError::TooManyShares { got: total_shares });
    }
    if threshold > total_shares {
        return Err(ShamirError::ThresholdExceedsShares { threshold, shares: total_shares });
    }
    if secret.len() != SECRET_LEN {
        return Err(ShamirError::InvalidSecretLength { expected: SECRET_LEN, got: secret.len() });
    }
    let dealt = sharks_deal(secret.expose_secret(), threshold, total_shares);
    let ghost dealt_bytes = share_views(dealt@);
    let mut shares: Vec<ShamirShare> = Vec::new();
    let mut i: usize = 0;
    while i < dealt.len()
        invariant
            i <= dealt@.len(),
            dealt@.len() == total_shares,
            dealt_bytes == share_views(dealt@),
            shares@.len() == i,
            forall|j: int| 0 <= j < i ==> (#[trigger] shares@[j])@ == dealt_bytes[j],
        decreases dealt@.len() - i,
    {
        shares.push(ShamirShare::from_bytes(vstd::slice::slice_to_vec(dealt[i].as_slice())));
        i = i + 1;
    }
    proof {
        assert(share_bytes(shares@) =~= dealt_bytes);
    }
    let test_shares = vstd::slice::slice_subrange(shares.as_slice(), 0, threshold as usize);
    proof {
        let sel = Seq::new(threshold as nat, |j: int| j);
        assert(sel.no_duplicates());
        assert(is_share_selection(sel, total_shares as nat, threshold as nat));
        assert(share_bytes(test_shares@) =~= select_shares(dealt_bytes, sel));
        law_threshold_shares_reconstruct(secret@, threshold, dealt_bytes, sel);
    }
    let rebuilt = reconstruct_from_raw_shares(test_shares, threshold);
    let matches = match &rebuilt {
        Ok(s) => ct_eq_bytes(s.expose_secret(), secret.expose_secret()),
        Err(_) => false,
    };
    if !matches {
        return Err(ShamirError::SelfTestFailed);
    }
    Ok(shares)
}

/// Rebuilds the secret from `threshold` or more shares, in any order.  No
/// shares give `NoSharesProvided`, fewer than `threshold` give
/// `InsufficientShares`; shares that cannot be combined give
/// `ReconstructionFailed`, and a rebuilt secret of the wrong length
/// `WrongReconstructedLength`.  A rebuilt secret is always 32 bytes long.
pub fn reconstruct_secret(shares: &[ShamirShare], threshold: u8) -> (r: Result<SecretBytes, ShamirError>)
    ensures
        r matches Ok(s) ==> reconstruction(share_bytes(shares@), threshold) == Ok::<Seq<u8>, ShamirError>(s@)
            && s@.len() == SECRET_LEN,
        r matches Err(e) ==> reconstruction(share_bytes(shares@), threshold) == Err::<Seq<u8>, ShamirError>(e),
{
    if shares.len() == 0 {
        return Err(ShamirError::NoSharesProvided);
    }
    if shares.len() < threshold as usize {
        return Err(ShamirError::InsufficientShares { needed: threshold, got: shares.len() });
    }
    reconstruct_from_raw_shares(shares, threshold)
}

/// Combines shares without checking their number first; used by
/// `reconstruct_secret` and by the check that every split runs.
fn reconstruct_from_raw_shares(shares: &[ShamirShare], threshold: u8) -> (r: Result<SecretBytes, ShamirError>)
    ensures
        r matches Ok(s) ==> combination(share_bytes(shares@), threshold) == Ok::<Seq<u8>, ShamirError>(s@)
            && s@.len() == SECRET_LEN,
        r matches Err(e) ==> combination(share_bytes(shares@), threshold) == Err::<Seq<u8>, ShamirError>(e),
{
    let mut raw: Vec<Vec<u8>> = Vec::new();
    let mut i: usize = 0;
    while i < shares.len()
        invariant
            i <= shares@.len(),
            raw@.len() == i,
            forall|j: int| 0 <= j < i ==> (#[trigger] raw@[j])@ == shares@[j]@,
        decreases shares@.len() - i,
    {
        raw.push(vstd::slice::slice_to_vec(shares[i].as_bytes()));
        i = i + 1;
    }
    proof {
        assert(share_views(raw@) =~= share_bytes(shares@));
    }
    let recovered = sharks_recover(threshold, &raw);
    match recovered {
        None => Err(ShamirError::ReconstructionFailed),
        Some(mut v) => {
            if v.len() != SECRET_LEN {
                let len = v.len();
                crate::primitives::wipe_vec(&mut v);
                return Err(ShamirError::WrongReconstructedLength { expected: SECRET_LEN, got: len });
            }
            match SecretBytes::new(v) {
                Ok((secret, _)) => Ok(secret),
                Err(_) => Err(ShamirError::ReconstructionFailed),
            }
        },
    }
}

} // verus!
