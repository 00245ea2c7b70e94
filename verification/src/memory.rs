//! `SecretBytes`, the holder of every key, password and derived secret.
//!
//! The bytes live in a buffer that is overwritten with zeros when it is
//! dropped.  A secret cannot be cloned or printed; its contents are reached
//! only through `expose_secret`, and equality is tested in constant time.
use vstd::prelude::*;
use vstd::string::*;

use crate::primitives::{ct_eq_bytes, wipe_array, wipe_vec, wipe_vec_in_place, ZeroizingBuffer, zeroizing_contents};
use crate::text::{decimal, push_decimal, push_signed_decimal, push_text, signed_decimal};

verus! {

/// Errors of the memory layer.
#[derive(Debug, Clone, PartialEq)]
pub enum MemoryError {
    /// Locking the pages of a secret failed; the secret may be swapped out.
    MlockFailed { errno: i32, message: String },
    /// Unlocking the pages of a secret failed.
    MunlockFailed { errno: i32 },
    /// A secret of length zero was supplied.
    EmptySecret,
    /// A constant-time comparison was asked of values of different lengths.
    LengthMismatch { expected: usize, got: usize },
}

impl MemoryError {
    /// The text shown to the user for this error.
    pub open spec fn message_text(&self) -> Seq<char> {
        match self {
            MemoryError::MlockFailed { errno, message } =>
                "Memory locking failed (errno "@ + signed_decimal(*errno as int) + "): "@
                    + message@ + ". Keys may be written to swap. See setup documentation to increase RLIMIT_MEMLOCK."@,
            MemoryError::MunlockFailed { errno } =>
                "Memory unlock failed (errno "@ + signed_decimal(*errno as int) + ")"@,
            MemoryError::EmptySecret => "Attempted to use empty secret material"@,
            MemoryError::LengthMismatch { expected, got } =>
                "Length mismatch in constant-time comparison: expected "@ + decimal(*expected as nat)
                    + " bytes, got "@ + decimal(*got as nat) + " bytes"@,
        }
    }

    /// Renders the error as text.
    pub fn message(&self) -> (m: String)
        ensures
            m@ == self.message_text(),
    {
        let mut m = String::new();
        match self {
            MemoryError::MlockFailed { errno, message } => {
                push_text(&mut m, "Memory locking failed (errno ");
                push_signed_decimal(&mut m, *errno as i64);
                push_text(&mut m, "): ");
                push_text(&mut m, message.as_str());
                push_text(&mut m, ". Keys may be written to swap. See setup documentation to increase RLIMIT_MEMLOCK.");
            },
            MemoryError::MunlockFailed { errno } => {
                push_text(&mut m, "Memory unlock failed (errno ");
                push_signed_decimal(&mut m, *errno as i64);
                push_text(&mut m, ")");
            },
            MemoryError::EmptySecret => {
                push_text(&mut m, "Attempted to use empty secret material");
            },
            MemoryError::LengthMismatch { expected, got } => {
                push_text(&mut m, "Length mismatch in constant-time comparison: expected ");
                push_decimal(&mut m, *expected as u64);
                push_text(&mut m, " bytes, got ");
                push_decimal(&mut m, *got as u64);
                push_text(&mut m, " bytes");
            },
        }
        m
    }
}

/// Whether a secret's memory is locked against swapping, as reported to the
/// layer above.
#[derive(Debug, Clone, PartialEq)]
pub enum MlockStatus {
    /// The memory is locked.
    Locked,
    /// Locking failed; `warning` is the text to show the user.
    Unlocked { warning: String },
}

impl MlockStatus {
    /// Turns the warning that came with a new secret into a status: no
    /// warning means locked; a warning carries its message text.
    pub fn from(err: Option<MemoryError>) -> (s: MlockStatus)
        ensures
            err is None <==> s is Locked,
            err matches Some(e) ==> (s matches MlockStatus::Unlocked { warning }
                && warning@ == e.message_text()),
    {
        match err {
            None => MlockStatus::Locked,
            Some(e) => MlockStatus::Unlocked { warning: e.message() },
        }
    }
}

/// The text of the warning that comes with every new secret: the library
/// makes no operating-system call to lock memory pages, so a new secret's
/// pages have not been locked (a caller that locks them records the outcome
/// with `SecretBytes::record_lock`).
pub open spec fn not_locked_text() -> Seq<char> {
    "no lock call has been made on this secret's pages"@
}

/// Whether `w` is the warning that comes with every new secret.
pub open spec fn is_not_locked_warning(w: Option<MemoryError>) -> bool {
    w matches Some(MemoryError::MlockFailed { errno, message })
        && errno == 0 && message@ == not_locked_text()
}

/// The warning text of the status that comes with every new secret.
pub open spec fn fresh_status_warning() -> Seq<char> {
    "Memory locking failed (errno "@ + signed_decimal(0) + "): "@ + not_locked_text()
        + ". Keys may be written to swap. See setup documentation to increase RLIMIT_MEMLOCK."@
}

/// Whether `s` is the status that comes with every new secret: unlocked,
/// with the warning that no memory locking was done.
pub open spec fn is_fresh_status(s: MlockStatus) -> bool {
    s matches MlockStatus::Unlocked { warning } && warning@ == fresh_status_warning()
}

/// A secret byte string: zeroed when dropped, never cloned or printed.
pub struct SecretBytes {
    data: ZeroizingBuffer,
    is_locked: bool,
}

impl View for SecretBytes {
    type V = Seq<u8>;

    closed spec fn view(&self) -> Seq<u8> {
        zeroizing_contents(self.data)
    }
}

impl SecretBytes {
    /// A secret is never empty: construction refuses empty input and zeroing
    /// keeps the length.
    #[verifier::type_invariant]
    closed spec fn never_empty(self) -> bool {
        zeroizing_contents(self.data).len() > 0
    }

    /// Whether the secret's pages are locked in memory.
    pub closed spec fn locked(&self) -> bool {
        self.is_locked
    }

    /// Wraps `data` as a secret.  Fails on empty input.  The library makes no
    /// operating-system call to lock pages: a new secret is not locked, and
    /// the warning that says no lock call was made is returned beside it.  A
    /// caller that locks the pages of `expose_secret` records the outcome with
    /// `record_lock`.
    pub fn new(data: Vec<u8>) -> (r: Result<(SecretBytes, Option<MemoryError>), MemoryError>)
        ensures
            data@.len() == 0 <==> r is Err,
            r matches Err(e) ==> e == MemoryError::EmptySecret,
            r matches Ok((s, w)) ==> s@ == data@ && !s.locked() && is_not_locked_warning(w),
    {
        let mut data = data;
        if data.len() == 0 {
            wipe_vec(&mut data);
            return Err(MemoryError::EmptySecret);
        }
        let warning = MemoryError::MlockFailed {
            errno: 0,
            message: String::from_str("no lock call has been made on this secret's pages"),
        };
        let secret = SecretBytes { data: ZeroizingBuffer::new(data), is_locked: false };
        Ok((secret, Some(warning)))
    }

    /// Wraps a copy of a fixed-size array as a secret and zeroes the array
    /// that was passed in.
    pub fn from_array<const N: usize>(arr: [u8; N]) -> (r: Result<(SecretBytes, Option<MemoryError>), MemoryError>)
        ensures
            N == 0 <==> r is Err,
            r matches Err(e) ==> e == MemoryError::EmptySecret,
            r matches Ok((s, w)) ==> s@ == arr@ && !s.locked() && is_not_locked_warning(w),
    {
        let mut arr = arr;
        let v = vstd::slice::slice_to_vec(arr.as_slice());
        wipe_array(&mut arr);
        SecretBytes::new(v)
    }

    /// The number of secret bytes.
    pub fn len(&self) -> (n: usize)
        ensures
            n == self@.len(),
            n > 0,
    {
        proof { use_type_invariant(self); }
        self.data.bytes().len()
    }

    /// Whether the secret holds no bytes; a secret is never empty, since
    /// construction refuses empty input and zeroing keeps the length.
    pub fn is_empty(&self) -> (b: bool)
        ensures
            b == (self@.len() == 0),
            !b,
    {
        proof { use_type_invariant(self); }
        self.data.bytes().len() == 0
    }

    /// Whether the secret's pages are locked in memory.
    pub fn is_memory_locked(&self) -> (b: bool)
        ensures
            b == self.locked(),
    {
        self.is_locked
    }

    /// Records the outcome of the caller's call that locks the pages holding
    /// this secret's bytes (those `expose_secret` returns, which stay in place
    /// for the secret's life): the secret is locked exactly when that call
    /// succeeded, and the call's error comes back as the warning.
    pub fn record_lock(&mut self, outcome: Result<(), MemoryError>) -> (w: Option<MemoryError>)
        ensures
            final(self)@ == old(self)@,
            final(self).locked() == (outcome is Ok),
            outcome is Ok ==> w is None,
            outcome matches Err(e) ==> w == Some(e),
    {
        proof { use_type_invariant(&*self); }
        match outcome {
            Ok(()) => {
                self.is_locked = true;
                None
            },
            Err(e) => {
                self.is_locked = false;
                Some(e)
            },
        }
    }

    /// Read-only access to the secret bytes.
    pub fn expose_secret(&self) -> (s: &[u8])
        ensures
            s@ == self@,
    {
        self.data.bytes()
    }

    /// Constant-time equality with another secret of the same length.
    pub fn ct_eq(&self, other: &SecretBytes) -> (r: Result<bool, MemoryError>)
        ensures
            self@.len() != other@.len() ==> r == Err::<bool, MemoryError>(
                MemoryError::LengthMismatch { expected: self@.len() as usize, got: other@.len() as usize }),
            self@.len() == other@.len() ==> r == Ok::<bool, MemoryError>(self@ == other@),
    {
        let a = self.data.bytes();
        let b = other.data.bytes();
        if a.len() != b.len() {
            return Err(MemoryError::LengthMismatch { expected: a.len(), got: b.len() });
        }
        Ok(ct_eq_bytes(a, b))
    }

    /// Constant-time equality with a plain byte slice of the same length.
    pub fn ct_eq_slice(&self, other: &[u8]) -> (r: Result<bool, MemoryError>)
        ensures
            self@.len() != other@.len() ==> r == Err::<bool, MemoryError>(
                MemoryError::LengthMismatch { expected: self@.len() as usize, got: other@.len() as usize }),
            self@.len() == other@.len() ==> r == Ok::<bool, MemoryError>(self@ == other@),
    {
        let a = self.data.bytes();
        if a.len() != other.len() {
            return Err(MemoryError::LengthMismatch { expected: a.len(), got: other.len() });
        }
        Ok(ct_eq_bytes(a, other))
    }

    /// Zeroes the secret now: every byte is overwritten with zero and the
    /// length stays.
    pub fn zero_now(&mut self)
        ensures
            final(self)@ == Seq::new(old(self)@.len(), |i: int| 0u8),
            final(self).locked() == old(self).locked(),
    {
        proof { use_type_invariant(&*self); }
        self.data.wipe();
    }

    /// Joins two secrets into a new one, `a`'s bytes first.
    pub fn concat(a: SecretBytes, b: SecretBytes) -> (r: Result<(SecretBytes, Option<MemoryError>), MemoryError>)
        ensures
            a@.len() + b@.len() == 0 <==> r is Err,
            r matches Err(e) ==> e == MemoryError::EmptySecret,
            r matches Ok((s, w)) ==> s@ == a@ + b@ && !s.locked() && is_not_locked_warning(w),
    {
        let mut combined: Vec<u8> = Vec::new();
        combined.extend_from_slice(a.expose_secret());
        combined.extend_from_slice(b.expose_secret());
        SecretBytes::new(combined)
    }

    /// The redacted debugging text of a secret: its length and lock state,
    /// never its bytes.
    pub open spec fn debug_text(len: nat, locked: bool) -> Seq<char> {
        "SecretBytes { len: "@ + decimal(len) + ", locked: "@
            + (if locked { "true"@ } else { "false"@ }) + " }"@
    }

    /// The redacted display text of a secret: its length only.
    pub open spec fn display_text(len: nat) -> Seq<char> {
        "[REDACTED SecretBytes len="@ + decimal(len) + "]"@
    }

    /// Debugging text that never contains the secret bytes.
    pub fn debug_string(&self) -> (m: String)
        ensures
            m@ == Self::debug_text(self@.len(), self.locked()),
    {
        let mut m = String::new();
        push_text(&mut m, "SecretBytes { len: ");
        push_decimal(&mut m, self.len() as u64);
        push_text(&mut m, ", locked: ");
        if self.is_locked {
            push_text(&mut m, "true");
        } else {
            push_text(&mut m, "false");
        }
        push_text(&mut m, " }");
        m
    }

    /// Display text that never contains the secret bytes.
    pub fn display_string(&self) -> (m: String)
        ensures
            m@ == Self::display_text(self@.len()),
    {
        let mut m = String::new();
        push_text(&mut m, "[REDACTED SecretBytes len=");
        push_decimal(&mut m, self.len() as u64);
        push_text(&mut m, "]");
        m
    }
}

/// Zeroes a byte vector in place: every byte becomes zero and the length
/// stays.
pub fn secure_zero(data: &mut Vec<u8>)
    ensures
        final(data)@ == Seq::new(old(data)@.len(), |i: int| 0u8),
{
    wipe_vec_in_place(data);
}

/// Zeroes every byte of an array.
pub fn secure_zero_array<const N: usize>(arr: &mut [u8; N])
    ensures
        final(arr)@ == Seq::new(N as nat, |i: int| 0u8),
{
    wipe_array(arr);
}

} // verus!
