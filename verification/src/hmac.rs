//! HMAC-SHA256 for the audit log: computing a tag, checking one in
//! constant time, and chaining entries so that each tag covers the previous
//! entry's tag.
use vstd::prelude::*;
use vstd::string::*;

use crate::memory::SecretBytes;
use crate::primitives::{ct_eq_bytes, hmac_sha256, hmac_sha256_tag};
use crate::text::{decimal, push_decimal, push_text};

verus! {

/// Length of an HMAC-SHA256 tag in bytes.
pub const HMAC_OUTPUT_LEN: usize = 32;

/// Errors of the audit HMAC operations.
#[derive(Debug, Clone, PartialEq, Eq, Structural)]
pub enum HmacError {
    /// The key has an unusable length (HMAC-SHA256 accepts every length, so
    /// this is never produced).
    InvalidKeyLength { got: usize },
    /// The tag does not match the data.
    VerificationFailed,
    /// The data to authenticate is empty.
    EmptyData,
}

impl HmacError {
    /// The text shown to the user for this error.
    pub open spec fn message_text(&self) -> Seq<char> {
        match self {
            HmacError::InvalidKeyLength { got } => "HMAC key must be 32 bytes, got "@ + decimal(*got as nat),
            HmacError::VerificationFailed => "HMAC verification failed — data may have been tampered with."@,
            HmacError::EmptyData => "Cannot compute HMAC of empty data."@,
        }
    }

    /// Renders the error as text.
    pub fn message(&self) -> (m: String)
        ensures
            m@ == self.message_text(),
    {
        let mut m = String::new();
        match self {
            HmacError::InvalidKeyLength { got } => {
                push_text(&mut m, "HMAC key must be 32 bytes, got ");
                push_decimal(&mut m, *got as u64);
            },
            HmacError::VerificationFailed => {
                push_text(&mut m, "HMAC verification failed — data may have been tampered with.");
            },
            HmacError::EmptyData => {
                push_text(&mut m, "Cannot compute HMAC of empty data.");
            },
        }
        m
    }
}

/// The outcome of `compute_hmac`: empty data is refused; otherwise the tag.
pub open spec fn hmac_outcome(key: Seq<u8>, data: Seq<u8>) -> Result<Seq<u8>, HmacError> {
    if data.len() == 0 {
        Err(HmacError::EmptyData)
    } else {
        Ok(hmac_sha256_tag(key, data))
    }
}

/// The outcome of `verify_hmac_ct`.
pub open spec fn verification_outcome(key: Seq<u8>, data: Seq<u8>, expected: Seq<u8>) -> Result<(), HmacError> {
    match hmac_outcome(key, data) {
        Err(e) => Err(e),
        Ok(t) => if t == expected { Ok(()) } else { Err(HmacError::VerificationFailed) },
    }
}

/// The outcome of `chain_hmac`: the tag of the entry followed by the
/// previous tag.
pub open spec fn chain_outcome(key: Seq<u8>, entry: Seq<u8>, prev: Seq<u8>) -> Result<Seq<u8>, HmacError> {
    if entry.len() == 0 {
        Err(HmacError::EmptyData)
    } else {
        Ok(hmac_sha256_tag(key, entry + prev))
    }
}

/// The view of a tag result.
pub open spec fn tag_result(r: Result<[u8; 32], HmacError>) -> Result<Seq<u8>, HmacError> {
    match r {
        Ok(t) => Ok(t@),
        Err(e) => Err(e),
    }
}

/// HMAC-SHA256 of `data` under `key`; empty data is refused.
pub fn compute_hmac(key: &SecretBytes, data: &[u8]) -> (r: Result<[u8; 32], HmacError>)
    ensures
        tag_result(r) == hmac_outcome(key@, data@),
{
    if data.len() == 0 {
        return Err(HmacError::EmptyData);
    }
    Ok(hmac_sha256(key.expose_secret(), data))
}

/// Checks a tag in constant time; a mismatch gives `VerificationFailed`.
pub fn verify_hmac_ct(key: &SecretBytes, data: &[u8], expected_hmac: &[u8; 32]) -> (r: Result<(), HmacError>)
    ensures
        r == verification_outcome(key@, data@, expected_hmac@),
        data@.len() > 0 ==> (r is Ok <==> expected_hmac@ == hmac_sha256_tag(key@, data@)),
        data@.len() > 0 && r is Err ==> r == Err::<(), HmacError>(HmacError::VerificationFailed),
        data@.len() == 0 ==> r == Err::<(), HmacError>(HmacError::EmptyData),
{
    let computed = compute_hmac(key, data)?;
    if ct_eq_bytes(computed.as_slice(), expected_hmac.as_slice()) {
        Ok(())
    } else {
        Err(HmacError::VerificationFailed)
    }
}

/// The chained tag of an audit entry: HMAC(key, entry || previous tag).
/// The first entry chains to 32 zero bytes.  Empty entries are refused.
pub fn chain_hmac(key: &SecretBytes, entry_data: &[u8], prev_hmac: &[u8; 32]) -> (r: Result<[u8; 32], HmacError>)
    ensures
        tag_result(r) == chain_outcome(key@, entry_data@, prev_hmac@),
{
    if entry_data.len() == 0 {
        return Err(HmacError::EmptyData);
    }
    let mut message: Vec<u8> = Vec::new();
    message.extend_from_slice(entry_data);
    message.extend_from_slice(prev_hmac.as_slice());
    assert(message@ =~= entry_data@ + prev_hmac@);
    Ok(hmac_sha256(key.expose_secret(), message.as_slice()))
}

/// Verification compares the whole 32-byte tag: for non-empty data it
/// succeeds exactly when the expected tag equals the HMAC of the data under
/// the key, so a tag wrong in any byte is refused as `VerificationFailed`.
pub proof fn law_verification_checks_whole_tag(key: Seq<u8>, data: Seq<u8>, expected: Seq<u8>)
    requires
        data.len() > 0,
    ensures
        verification_outcome(key, data, expected) is Ok <==> expected == hmac_sha256_tag(key, data),
        expected != hmac_sha256_tag(key, data)
            ==> verification_outcome(key, data, expected) == Err::<(), HmacError>(HmacError::VerificationFailed),
{
}

/// A tag computed for data verifies against the same key and data; a chained
/// tag is the plain tag of the entry followed by the previous tag, so
/// verifying an entry needs the previous tag it was chained to.
pub proof fn law_audit_tags(key: Seq<u8>, data: Seq<u8>, entry: Seq<u8>, prev: Seq<u8>)
    ensures
        hmac_outcome(key, data) matches Ok(t) ==> verification_outcome(key, data, t) == Ok::<(), HmacError>(()),
        entry.len() > 0 ==> chain_outcome(key, entry, prev) == hmac_outcome(key, entry + prev),
{
}

} // verus!
