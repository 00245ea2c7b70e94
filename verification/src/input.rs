//! Checking a password that was typed in and moving it into a secret.
//!
//! Reading from the terminal is the caller's part; here a password's bytes
//! are checked (not empty, at most 1024 bytes), two entries are compared in
//! constant time, and every rejected entry is zeroed.
use vstd::prelude::*;
use vstd::string::*;

use crate::memory::{is_fresh_status, MemoryError, MlockStatus, SecretBytes};
use crate::primitives::{ct_eq_bytes, wipe_vec_in_place};
use crate::text::{decimal, push_decimal, push_text};

verus! {

/// Longest accepted password in bytes.
pub const MAX_PASSWORD_LEN: usize = 1024;

/// Errors of password input.
#[derive(Debug, Clone, PartialEq)]
pub enum InputError {
    /// Reading from the terminal failed.
    ReadFailed { detail: String },
    /// The two entries of a new password differ.
    PasswordMismatch,
    /// The password is empty.
    EmptyPassword,
    /// The password is longer than the maximum.
    PasswordTooLong { max: usize, got: usize },
    /// An error of the memory layer.
    MemoryError(MemoryError),
}

impl InputError {
    /// The text shown to the user for this error.
    pub open spec fn message_text(&self) -> Seq<char> {
        match self {
            InputError::ReadFailed { detail } => "Failed to read password: "@ + detail@,
            InputError::PasswordMismatch => "Passwords do not match. Please try again."@,
            InputError::EmptyPassword => "Password cannot be empty."@,
            InputError::PasswordTooLong { max, got } =>
                "Password is too long ("@ + decimal(*got as nat) + " bytes, maximum is "@
                    + decimal(*max as nat) + " bytes)."@,
            InputError::MemoryError(e) => "Memory error during password handling: "@ + e.message_text(),
        }
    }

    /// Renders the error as text.
    pub fn message(&self) -> (m: String)
        ensures
            m@ == self.message_text(),
    {
        let mut m = String::new();
        match self {
            InputError::ReadFailed { detail } => {
                push_text(&mut m, "Failed to read password: ");
                push_text(&mut m, detail.as_str());
            },
            InputError::PasswordMismatch => {
                push_text(&mut m, "Passwords do not match. Please try again.");
            },
            InputError::EmptyPassword => {
                push_text(&mut m, "Password cannot be empty.");
            },
            InputError::PasswordTooLong { max, got } => {
                push_text(&mut m, "Password is too long (");
                push_decimal(&mut m, *got as u64);
                push_text(&mut m, " bytes, maximum is ");
                push_decimal(&mut m, *max as u64);
                push_text(&mut m, " bytes).");
            },
            InputError::MemoryError(e) => {
                push_text(&mut m, "Memory error during password handling: ");
                let inner = e.message();
                push_text(&mut m, inner.as_str());
            },
        }
        m
    }

    /// Wraps an error of the memory layer.
    pub fn from(e: MemoryError) -> (r: InputError)
        ensures
            r == InputError::MemoryError(e),
    {
        InputError::MemoryError(e)
    }
}

/// Why a password is refused: empty, or longer than the maximum.
pub open spec fn password_refusal(len: nat) -> Option<InputError> {
    if len == 0 {
        Some(InputError::EmptyPassword)
    } else if len > MAX_PASSWORD_LEN {
        Some(InputError::PasswordTooLong { max: MAX_PASSWORD_LEN, got: len as usize })
    } else {
        None
    }
}

/// Checks a password's bytes and moves them into a secret.  An empty
/// password gives `EmptyPassword`; one longer than 1024 bytes is zeroed and
/// gives `PasswordTooLong`.  Any other bytes, binary or not, are accepted,
/// and the status that comes with the new secret is returned beside it.
pub fn validate_and_wrap(password_bytes: Vec<u8>) -> (r: Result<(SecretBytes, MlockStatus), InputError>)
    ensures
        r is Err <==> password_refusal(password_bytes@.len()) is Some,
        r matches Err(e) ==> password_refusal(password_bytes@.len()) == Some(e),
        r matches Ok((s, status)) ==> s@ == password_bytes@ && !s.locked() && is_fresh_status(status),
{
    let mut password_bytes = password_bytes;
    if password_bytes.len() == 0 {
        return Err(InputError::EmptyPassword);
    }
    if password_bytes.len() > MAX_PASSWORD_LEN {
        let len = password_bytes.len();
        zeroize_vec(&mut password_bytes);
        return Err(InputError::PasswordTooLong { max: MAX_PASSWORD_LEN, got: len });
    }
    match SecretBytes::new(password_bytes) {
        Ok((secret, warning)) => {
            let status = MlockStatus::from(warning);
            Ok((secret, status))
        },
        Err(e) => Err(InputError::from(e)),
    }
}

/// What confirming a new password gives for its two entries: the first
/// entry is checked for being empty or too long, then compared with the
/// second.
pub open spec fn confirmation_refusal(first: Seq<u8>, second: Seq<u8>) -> Option<InputError> {
    if first.len() == 0 {
        Some(InputError::EmptyPassword)
    } else if first.len() > MAX_PASSWORD_LEN {
        Some(InputError::PasswordTooLong { max: MAX_PASSWORD_LEN, got: first.len() as usize })
    } else if first != second {
        Some(InputError::PasswordMismatch)
    } else {
        None
    }
}

/// A new password is confirmed only by two identical entries: whenever
/// confirmation is not refused the entries are equal, and two different
/// entries, the first non-empty and at most 1024 bytes long, are refused as
/// a mismatch (entries that differ anywhere, the last byte included).
pub proof fn law_confirmation_needs_identical_entries(first: Seq<u8>, second: Seq<u8>)
    ensures
        confirmation_refusal(first, second) is None ==> first == second,
        0 < first.len() <= MAX_PASSWORD_LEN && first != second
            ==> confirmation_refusal(first, second) == Some(InputError::PasswordMismatch),
        0 < first.len() <= MAX_PASSWORD_LEN && first == second ==> confirmation_refusal(first, second) is None,
{
}

/// Confirms a new password from its two entries.  The first entry is
/// checked for being empty or longer than 1024 bytes, then compared with
/// the second in constant time.  Both entries are zeroed when the password
/// is refused; when they match, the second is zeroed and the first becomes
/// the secret.
pub fn confirm_password_entries(first: Vec<u8>, second: Vec<u8>) -> (r: Result<(SecretBytes, MlockStatus), InputError>)
    ensures
        r is Err <==> confirmation_refusal(first@, second@) is Some,
        r matches Err(e) ==> confirmation_refusal(first@, second@) == Some(e),
        r matches Ok((s, status)) ==> s@ == first@ && !s.locked() && is_fresh_status(status),
        r is Ok ==> first@ == second@,
        0 < first@.len() <= MAX_PASSWORD_LEN && first@ != second@
            ==> (r matches Err(e) && e == InputError::PasswordMismatch),
{
    let mut first = first;
    let mut second = second;
    if first.len() == 0 {
        zeroize_vec(&mut first);
        zeroize_vec(&mut second);
        return Err(InputError::EmptyPassword);
    }
    if first.len() > MAX_PASSWORD_LEN {
        let len = first.len();
        zeroize_vec(&mut first);
        zeroize_vec(&mut second);
        return Err(InputError::PasswordTooLong { max: MAX_PASSWORD_LEN, got: len });
    }
    let matches = constant_time_eq(first.as_slice(), second.as_slice());
    if !matches {
        zeroize_vec(&mut first);
        zeroize_vec(&mut second);
        return Err(InputError::PasswordMismatch);
    }
    zeroize_vec(&mut second);
    validate_and_wrap(first)
}

/// Constant-time equality of two byte strings; strings of different
/// lengths are unequal (the comparison then still takes the time of one
/// pass over `a`).
pub fn constant_time_eq(a: &[u8], b: &[u8]) -> (eq: bool)
    ensures
        eq == (a@ == b@),
{
    if a.len() != b.len() {
        let _ = ct_eq_bytes(a, a);
        return false;
    }
    ct_eq_bytes(a, b)
}

/// Zeroes a byte vector in place: every byte becomes zero and the length
/// stays.
pub fn zeroize_vec(v: &mut Vec<u8>)
    ensures
        final(v)@ == Seq::new(old(v)@.len(), |i: int| 0u8),
{
    wipe_vec_in_place(v);
}

} // verus!
