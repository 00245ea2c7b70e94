//! Key derivation and authenticated encryption.
//!
//! Argon2id turns a password into a master key, HKDF-SHA256 derives session
//! keys and purpose-bound subkeys from it, and vault data is sealed with
//! AES-256-GCM-SIV (a fresh random nonce prepended to the ciphertext) or
//! ChaCha20-Poly1305 (a nonce built from a per-vault base and the write
//! counter).  Every decryption of an encryption's output gives the
//! plaintext back.
use vstd::prelude::*;
use vstd::string::*;

use crate::memory::{is_fresh_status, MemoryError, MlockStatus, SecretBytes};
use crate::primitives::{
    aes_gcm_siv_limit, aes_gcm_siv_open, aes_gcm_siv_opened, aes_gcm_siv_seal, aes_gcm_siv_sealed,
    argon2_accepts, argon2id_hash, argon2id_output, chacha20poly1305_accepts, chacha20poly1305_open,
    chacha20poly1305_opened, chacha20poly1305_seal, chacha20poly1305_sealed, hkdf_sha256_expand,
    hkdf_sha256_okm, os_random_fill, Argon2Fault,
};
use vstd::bytes::{spec_u64_to_le_bytes, u64_to_le_bytes};
use crate::text::{decimal, push_decimal, push_text};

verus! {

/// Length of an encryption key in bytes.
pub const KEY_LEN: usize = 32;
/// Length of an AES-256-GCM-SIV nonce in bytes.
pub const GCM_SIV_NONCE_LEN: usize = 12;
/// Length of a ChaCha20-Poly1305 nonce in bytes.
pub const CHACHA_NONCE_LEN: usize = 12;
/// Length of an Argon2id salt in bytes.
pub const ARGON2_SALT_LEN: usize = 16;
/// Length of the random nonce from which a session key is derived.
pub const SESSION_NONCE_LEN: usize = 32;
/// Smallest accepted Argon2id time cost.
pub const ARGON2_MIN_T_COST: u32 = 3;
/// Smallest accepted Argon2id memory cost in KiB (64 MiB).
pub const ARGON2_MIN_M_COST: u32 = 65_536;
/// Smallest accepted Argon2id parallelism.
pub const ARGON2_MIN_P_COST: u32 = 4;
/// Default Argon2id time cost for new vaults.
pub const ARGON2_DEFAULT_T_COST: u32 = 3;
/// Default Argon2id memory cost in KiB for new vaults.
pub const ARGON2_DEFAULT_M_COST: u32 = 65_536;
/// Default Argon2id parallelism for new vaults.
pub const ARGON2_DEFAULT_P_COST: u32 = 4;
/// Length of the Argon2id output in bytes.
pub const ARGON2_OUTPUT_LEN: usize = 32;

/// Errors of the cryptographic layer.
#[derive(Debug, Clone, PartialEq)]
pub enum CryptoError {
    /// An Argon2id parameter is below its enforced minimum.
    Argon2ParamBelowMinimum { param: &'static str, minimum: u32, got: u32 },
    /// The Argon2id computation refused its inputs.
    Argon2Failed { detail: String },
    /// Encryption failed.
    EncryptionFailed { detail: String },
    /// Decryption failed: wrong key, wrong associated data or damaged data.
    DecryptionFailed,
    /// HKDF expansion failed.
    HkdfFailed { detail: String },
    /// The operating system's random source failed.
    RngFailed { detail: String },
    /// An error of the memory layer.
    MemoryError(MemoryError),
    /// The nonce counter would overflow.
    NonceCounterOverflow,
    /// A key of the wrong length was supplied.
    InvalidKeyLength { expected: usize, got: usize },
    /// A nonce of the wrong length was supplied.
    InvalidNonceLength { expected: usize, got: usize },
}

impl CryptoError {
    /// The text shown to the user for this error.
    pub open spec fn message_text(&self) -> Seq<char> {
        match self {
            CryptoError::Argon2ParamBelowMinimum { param, minimum, got } =>
                "KDF parameter '"@ + param@ + "' is below the security minimum (minimum: "@
                    + decimal(*minimum as nat) + ", provided: "@ + decimal(*got as nat)
                    + "). This vault cannot be opened with these parameters."@,
            CryptoError::Argon2Failed { detail } => "Key derivation failed: "@ + detail@,
            CryptoError::EncryptionFailed { detail } => "Encryption failed: "@ + detail@,
            CryptoError::DecryptionFailed => "Incorrect password or vault data is corrupted."@,
            CryptoError::HkdfFailed { detail } => "Key derivation (HKDF) failed: "@ + detail@,
            CryptoError::RngFailed { detail } => "Random number generation failed: "@ + detail@,
            CryptoError::MemoryError(e) => "Memory error: "@ + e.message_text(),
            CryptoError::NonceCounterOverflow =>
                "Encryption counter overflow. This vault has been used an extraordinary number of times."@,
            CryptoError::InvalidKeyLength { expected, got } =>
                "Invalid key length: expected "@ + decimal(*expected as nat) + ", got "@ + decimal(*got as nat),
            CryptoError::InvalidNonceLength { expected, got } =>
                "Invalid nonce length: expected "@ + decimal(*expected as nat) + ", got "@ + decimal(*got as nat),
        }
    }

    /// Renders the error as text.
    pub fn message(&self) -> (m: String)
        ensures
            m@ == self.message_text(),
    {
        let mut m = String::new();
        match self {
            CryptoError::Argon2ParamBelowMinimum { param, minimum, got } => {
                push_text(&mut m, "KDF parameter '");
                push_text(&mut m, param);
                push_text(&mut m, "' is below the security minimum (minimum: ");
                push_decimal(&mut m, *minimum as u64);
                push_text(&mut m, ", provided: ");
                push_decimal(&mut m, *got as u64);
                push_text(&mut m, "). This vault cannot be opened with these parameters.");
            },
            CryptoError::Argon2Failed { detail } => {
                push_text(&mut m, "Key derivation failed: ");
                push_text(&mut m, detail.as_str());
            },
            CryptoError::EncryptionFailed { detail } => {
                push_text(&mut m, "Encryption failed: ");
                push_text(&mut m, detail.as_str());
            },
            CryptoError::DecryptionFailed => {
                push_text(&mut m, "Incorrect password or vault data is corrupted.");
            },
            CryptoError::HkdfFailed { detail } => {
                push_text(&mut m, "Key derivation (HKDF) failed: ");
                push_text(&mut m, detail.as_str());
            },
            CryptoError::RngFailed { detail } => {
                push_text(&mut m, "Random number generation failed: ");
                push_text(&mut m, detail.as_str());
            },
            CryptoError::MemoryError(e) => {
                push_text(&mut m, "Memory error: ");
                let inner = e.message();
                push_text(&mut m, inner.as_str());
            },
            CryptoError::NonceCounterOverflow => {
                push_text(&mut m, "Encryption counter overflow. This vault has been used an extraordinary number of times.");
            },
            CryptoError::InvalidKeyLength { expected, got } => {
                push_text(&mut m, "Invalid key length: expected ");
                push_decimal(&mut m, *expected as u64);
                push_text(&mut m, ", got ");
                push_decimal(&mut m, *got as u64);
            },
            CryptoError::InvalidNonceLength { expected, got } => {
                push_text(&mut m, "Invalid nonce length: expected ");
                push_decimal(&mut m, *expected as u64);
                push_text(&mut m, ", got ");
                push_decimal(&mut m, *got as u64);
            },
        }
        m
    }

    /// Wraps an error of the memory layer.
    pub fn from(e: MemoryError) -> (r: CryptoError)
        ensures
            r == CryptoError::MemoryError(e),
    {
        CryptoError::MemoryError(e)
    }
}

/// Which cipher encrypts a vault's data.
#[derive(Debug, Clone, Copy, PartialEq, Eq, Structural)]
pub enum CipherChoice {
    /// AES-256-GCM-SIV; header byte 0x01.
    AesGcmSiv,
    /// ChaCha20-Poly1305; header byte 0x02.
    ChaCha20Poly1305,
}

impl CipherChoice {
    /// The header byte of a cipher.
    pub open spec fn header_byte(self) -> u8 {
        match self {
            CipherChoice::AesGcmSiv => 0x01,
            CipherChoice::ChaCha20Poly1305 => 0x02,
        }
    }

    /// The cipher that a header byte names, if any.
    pub open spec fn from_byte(byte: u8) -> Option<CipherChoice> {
        if byte == 0x01 {
            Some(CipherChoice::AesGcmSiv)
        } else if byte == 0x02 {
            Some(CipherChoice::ChaCha20Poly1305)
        } else {
            None
        }
    }

    /// Reads a cipher from its header byte.
    pub fn from_header_byte(byte: u8) -> (r: Option<CipherChoice>)
        ensures
            r == Self::from_byte(byte),
    {
        match byte {
            0x01 => Some(CipherChoice::AesGcmSiv),
            0x02 => Some(CipherChoice::ChaCha20Poly1305),
            _ => None,
        }
    }

    /// The header byte of this cipher.
    pub fn to_header_byte(self) -> (b: u8)
        ensures
            b == self.header_byte(),
    {
        match self {
            CipherChoice::AesGcmSiv => 0x01,
            CipherChoice::ChaCha20Poly1305 => 0x02,
        }
    }
}

/// Every cipher is read back from its own header byte, and exactly the
/// bytes 0x01 and 0x02 name a cipher.
pub proof fn law_cipher_byte_round_trip(c: CipherChoice, byte: u8)
    ensures
        CipherChoice::from_byte(c.header_byte()) == Some(c),
        CipherChoice::from_byte(byte) matches Some(d) ==> d.header_byte() == byte,
        CipherChoice::from_byte(byte) is Some <==> (byte == 0x01 || byte == 0x02),
{
}

/// Argon2id cost parameters.
#[derive(Debug, Clone, Copy, PartialEq, Eq, Structural)]
pub struct Argon2Params {
    /// Time cost (iterations).
    pub t_cost: u32,
    /// Memory cost in KiB.
    pub m_cost: u32,
    /// Parallelism.
    pub p_cost: u32,
}

impl Argon2Params {
    /// Whether every parameter meets its enforced minimum.
    pub open spec fn meets_minimums(self) -> bool {
        self.t_cost >= ARGON2_MIN_T_COST && self.m_cost >= ARGON2_MIN_M_COST
            && self.p_cost >= ARGON2_MIN_P_COST
    }

    /// The outcome of validating three cost parameters: the first parameter
    /// (in the order time, memory, parallelism) below its minimum is named in
    /// the error.
    pub open spec fn validation(t_cost: u32, m_cost: u32, p_cost: u32) -> Result<Argon2Params, CryptoError> {
        if t_cost < ARGON2_MIN_T_COST {
            Err(CryptoError::Argon2ParamBelowMinimum { param: "t_cost", minimum: ARGON2_MIN_T_COST, got: t_cost })
        } else if m_cost < ARGON2_MIN_M_COST {
            Err(CryptoError::Argon2ParamBelowMinimum { param: "m_cost", minimum: ARGON2_MIN_M_COST, got: m_cost })
        } else if p_cost < ARGON2_MIN_P_COST {
            Err(CryptoError::Argon2ParamBelowMinimum { param: "p_cost", minimum: ARGON2_MIN_P_COST, got: p_cost })
        } else {
            Ok(Argon2Params { t_cost, m_cost, p_cost })
        }
    }

    /// Validated parameters: refuses any parameter below its minimum
    /// (time cost 3, memory cost 65536 KiB, parallelism 4).
    pub fn new(t_cost: u32, m_cost: u32, p_cost: u32) -> (r: Result<Argon2Params, CryptoError>)
        ensures
            r == Self::validation(t_cost, m_cost, p_cost),
            r is Ok <==> (t_cost >= 3 && m_cost >= 65_536 && p_cost >= 4),
    {
        if t_cost < ARGON2_MIN_T_COST {
            return Err(CryptoError::Argon2ParamBelowMinimum {
                param: "t_cost",
                minimum: ARGON2_MIN_T_COST,
                got: t_cost,
            });
        }
        if m_cost < ARGON2_MIN_M_COST {
            return Err(CryptoError::Argon2ParamBelowMinimum {
                param: "m_cost",
                minimum: ARGON2_MIN_M_COST,
                got: m_cost,
            });
        }
        if p_cost < ARGON2_MIN_P_COST {
            return Err(CryptoError::Argon2ParamBelowMinimum {
                param: "p_cost",
                minimum: ARGON2_MIN_P_COST,
                got: p_cost,
            });
        }
        Ok(Argon2Params { t_cost, m_cost, p_cost })
    }

    /// The parameters for new vaults: time cost 3, memory cost 65536 KiB,
    /// parallelism 4.
    pub fn default_secure() -> (p: Argon2Params)
        ensures
            p == (Argon2Params { t_cost: 3, m_cost: 65_536, p_cost: 4 }),
            p.meets_minimums(),
    {
        Argon2Params {
            t_cost: ARGON2_DEFAULT_T_COST,
            m_cost: ARGON2_DEFAULT_M_COST,
            p_cost: ARGON2_DEFAULT_P_COST,
        }
    }
}

/// Validation accepts exactly the parameters that meet the minimums, and
/// keeps them unchanged; the default parameters pass it.
pub proof fn law_params_validation(t_cost: u32, m_cost: u32, p_cost: u32)
    ensures
        Argon2Params::validation(t_cost, m_cost, p_cost) is Ok
            <==> (Argon2Params { t_cost, m_cost, p_cost }).meets_minimums(),
        Argon2Params::validation(t_cost, m_cost, p_cost) matches Ok(p)
            ==> p == (Argon2Params { t_cost, m_cost, p_cost }),
        Argon2Params::validation(3, 65_536, 4) == Ok::<Argon2Params, CryptoError>(
            Argon2Params { t_cost: 3, m_cost: 65_536, p_cost: 4 }),
{
}

/// The key that `derive_master_key` produces.
pub open spec fn master_key_of(password: Seq<u8>, salt: Seq<u8>, params: Argon2Params) -> Seq<u8> {
    argon2id_output(password, salt, params.m_cost, params.t_cost, params.p_cost)
}

/// The master key is the Argon2id output over the password and the whole
/// salt, under the parameters' memory, time and parallelism costs in that
/// order: two salts that differ in any byte are two different inputs.
pub proof fn law_master_key_is_argon2id_of_whole_salt(password: Seq<u8>, salt: Seq<u8>, params: Argon2Params)
    ensures
        master_key_of(password, salt, params)
            == argon2id_output(password, salt, params.m_cost, params.t_cost, params.p_cost),
{
}

/// Derives the 32-byte master key from a password with Argon2id.  The
/// password is consumed and zeroed.  The derivation succeeds when argon2
/// accepts the cost parameters (at least 8 KiB of memory per lane and at
/// most 2^24 - 1 lanes) and the password is at most 2^32 - 1 bytes long;
/// otherwise it reports `Argon2Failed`.
pub fn derive_master_key(password: SecretBytes, salt: &[u8; 16], params: &Argon2Params)
    -> (r: Result<(SecretBytes, MlockStatus), CryptoError>)
    requires
        params.p_cost <= 0x1FFF_FFFF,
    ensures
        r is Ok <==> (argon2_accepts(params.m_cost, params.t_cost, params.p_cost)
            && password@.len() <= 0xFFFF_FFFF),
        r matches Ok((key, st)) ==> key@ == master_key_of(password@, salt@, *params) && key@.len() == 32
            && key@ == argon2id_output(password@, salt@, params.m_cost, params.t_cost, params.p_cost)
            && !key.locked() && is_fresh_status(st),
        r matches Err(e) ==> e is Argon2Failed,
{
    let mut password = password;
    let derived = master_key_from(&password, salt, params);
    password.zero_now();
    derived
}

/// The Argon2id master key of a password that the caller keeps (and zeroes);
/// the same outcomes as `derive_master_key`.
pub(crate) fn master_key_from(password: &SecretBytes, salt: &[u8; 16], params: &Argon2Params)
    -> (r: Result<(SecretBytes, MlockStatus), CryptoError>)
    requires
        params.p_cost <= 0x1FFF_FFFF,
    ensures
        r is Ok <==> (argon2_accepts(params.m_cost, params.t_cost, params.p_cost)
            && password@.len() <= 0xFFFF_FFFF),
        r matches Ok((key, st)) ==> key@ == master_key_of(password@, salt@, *params) && key@.len() == 32
            && key@ == argon2id_output(password@, salt@, params.m_cost, params.t_cost, params.p_cost)
            && !key.locked() && is_fresh_status(st),
        r matches Err(e) ==> e is Argon2Failed,
{
    let derived = argon2id_hash(password.expose_secret(), salt.as_slice(), params.m_cost, params.t_cost, params.p_cost);
    match derived {
        Err(Argon2Fault::Params(text)) => {
            let mut detail = String::from_str("Invalid Argon2id parameters: ");
            push_text(&mut detail, text.as_str());
            Err(CryptoError::Argon2Failed { detail })
        },
        Err(Argon2Fault::Computation(text)) => {
            let mut detail = String::from_str("Argon2id computation failed: ");
            push_text(&mut detail, text.as_str());
            Err(CryptoError::Argon2Failed { detail })
        },
        Ok(output) => {
            match SecretBytes::new(output) {
                Ok((key, warning)) => Ok((key, MlockStatus::from(warning))),
                Err(e) => Err(CryptoError::from(e)),
            }
        },
    }
}

/// The key that HKDF-SHA256 derives from a master key, with the vault id as
/// salt and `info` as the info string.
pub open spec fn hkdf_key_of(master: Seq<u8>, vault_id: Seq<u8>, info: Seq<u8>) -> Seq<u8> {
    hkdf_sha256_okm(vault_id, master, info)
}

/// Session keys and subkeys are HKDF-SHA256 with the vault id as salt, the
/// master key as input key material and the nonce or purpose as info.
pub proof fn law_hkdf_roles(master: Seq<u8>, vault_id: Seq<u8>, info: Seq<u8>)
    ensures
        hkdf_key_of(master, vault_id, info) == hkdf_sha256_okm(vault_id, master, info),
{
}

/// Derives the 32-byte session key HKDF-SHA256(ikm = master key, salt =
/// vault id, info = session nonce).  The master key is consumed and zeroed.
pub fn derive_session_key(master_key: SecretBytes, vault_id: &[u8; 16], session_nonce: &[u8; 32])
    -> (r: Result<(SecretBytes, MlockStatus), CryptoError>)
    ensures
        r matches Ok((key, st)) && key@ == hkdf_key_of(master_key@, vault_id@, session_nonce@)
            && key@ == hkdf_sha256_okm(vault_id@, master_key@, session_nonce@)
            && key@.len() == 32 && !key.locked() && is_fresh_status(st),
{
    let mut master_key = master_key;
    let output = hkdf_sha256_expand(vault_id.as_slice(), master_key.expose_secret(), session_nonce.as_slice());
    master_key.zero_now();
    match SecretBytes::new(output) {
        Ok((key, warning)) => Ok((key, MlockStatus::from(warning))),
        Err(e) => Err(CryptoError::from(e)),
    }
}

/// Derives the 32-byte subkey HKDF-SHA256(ikm = master key, salt = vault id,
/// info = purpose).  The master key is kept.
pub fn derive_subkey(master_key: &SecretBytes, vault_id: &[u8; 16], purpose: &[u8])
    -> (r: Result<(SecretBytes, MlockStatus), CryptoError>)
    ensures
        r matches Ok((key, st)) && key@ == hkdf_key_of(master_key@, vault_id@, purpose@)
            && key@ == hkdf_sha256_okm(vault_id@, master_key@, purpose@)
            && key@.len() == 32 && !key.locked() && is_fresh_status(st),
{
    let output = hkdf_sha256_expand(vault_id.as_slice(), master_key.expose_secret(), purpose);
    match SecretBytes::new(output) {
        Ok((key, warning)) => Ok((key, MlockStatus::from(warning))),
        Err(e) => Err(CryptoError::from(e)),
    }
}

/// The text of an `RngFailed` detail for an error text of the OS source.
pub open spec fn rng_failure_detail(text: Seq<char>) -> Seq<char> {
    "OS CSPRNG failed: "@ + text
}

/// `len` bytes from the operating system's random source.  The bytes depend
/// on that source; only their number is stated.
pub fn generate_random_vec(len: usize) -> (r: Result<Vec<u8>, CryptoError>)
    ensures
        r matches Ok(v) ==> v@.len() == len,
        r matches Err(e) ==> (e matches CryptoError::RngFailed { detail }
            && exists|text: Seq<char>| detail@ == #[trigger] rng_failure_detail(text)),
{
    let mut buf = vec![0u8; len];
    match os_random_fill(&mut buf) {
        Ok(()) => Ok(buf),
        Err(text) => {
            let mut detail = String::from_str("OS CSPRNG failed: ");
            push_text(&mut detail, text.as_str());
            assert(detail@ == rng_failure_detail(text@));
            Err(CryptoError::RngFailed { detail })
        },
    }
}

/// `N` bytes from the operating system's random source, as an array.  The
/// bytes depend on that source; when it fails, the error carries its text.
pub fn generate_random_bytes<const N: usize>() -> (r: Result<[u8; N], CryptoError>)
    ensures
        r matches Err(e) ==> (e matches CryptoError::RngFailed { detail }
            && exists|text: Seq<char>| detail@ == #[trigger] rng_failure_detail(text)),
{
    let v = match generate_random_vec(N) {
        Ok(v) => v,
        Err(e) => { return Err(e); },
    };
    let mut out: [u8; N] = vstd::array::array_fill_for_copy_types(0u8);
    let mut i: usize = 0;
    while i < N
        invariant
            v@.len() == N,
            i <= N,
            forall|j: int| 0 <= j < i ==> out@[j] == v@[j],
        decreases N - i,
    {
        out[i] = v[i];
        i = i + 1;
    }
    Ok(out)
}

/// The ChaCha20-Poly1305 nonce for a nonce base and a write counter: the
/// first eight bytes of the base XOR the counter's little-endian bytes,
/// then bytes 8..12 of the base.
pub open spec fn chacha_nonce(base: Seq<u8>, counter: u64) -> Seq<u8> {
    Seq::new(12, |i: int| if i < 8 { base[i] ^ spec_u64_to_le_bytes(counter)[i] } else { base[i] })
}

/// Builds the 12-byte ChaCha20-Poly1305 nonce from the 24-byte base and the
/// write counter.
pub fn construct_chacha_nonce(nonce_base: &[u8; 24], write_counter: u64) -> (r: Result<[u8; 12], CryptoError>)
    ensures
        r matches Ok(n) && n@ == chacha_nonce(nonce_base@, write_counter),
{
    proof { vstd::bytes::lemma_auto_spec_u64_to_from_le_bytes(); }
    let counter_bytes = u64_to_le_bytes(write_counter);
    let mut nonce = [0u8; 12];
    let mut i: usize = 0;
    while i < 12
        invariant
            i <= 12,
            counter_bytes@ == spec_u64_to_le_bytes(write_counter),
            counter_bytes@.len() == 8,
            forall|j: int| 0 <= j < i ==> nonce@[j] == chacha_nonce(nonce_base@, write_counter)[j],
        decreases 12 - i,
    {
        if i < 8 {
            nonce[i] = nonce_base[i] ^ counter_bytes[i];
        } else {
            nonce[i] = nonce_base[i];
        }
        i = i + 1;
    }
    assert(nonce@ =~= chacha_nonce(nonce_base@, write_counter));
    Ok(nonce)
}

/// With the write counter at zero the nonce is the first twelve bytes of
/// the base; and distinct counters give distinct nonces for the same base,
/// so a counter that only grows never repeats a nonce.
pub proof fn law_chacha_nonce(base: Seq<u8>, c1: u64, c2: u64)
    requires
        base.len() == 24,
    ensures
        chacha_nonce(base, 0) == base.subrange(0, 12),
        c1 != c2 ==> chacha_nonce(base, c1) != chacha_nonce(base, c2),
{
    vstd::bytes::lemma_auto_spec_u64_to_from_le_bytes();
    vstd::bytes::spec_u64_to_le_bytes_to_open(0);
    let z = spec_u64_to_le_bytes(0);
    assert forall|i: int| 0 <= i < 8 implies z[i] == 0u8 by {
        assert((0u64 & 0xff) as u8 == 0u8) by (bit_vector);
        assert(((0u64 >> 8) & 0xff) as u8 == 0u8) by (bit_vector);
        assert(((0u64 >> 16) & 0xff) as u8 == 0u8) by (bit_vector);
        assert(((0u64 >> 24) & 0xff) as u8 == 0u8) by (bit_vector);
        assert(((0u64 >> 32) & 0xff) as u8 == 0u8) by (bit_vector);
        assert(((0u64 >> 40) & 0xff) as u8 == 0u8) by (bit_vector);
        assert(((0u64 >> 48) & 0xff) as u8 == 0u8) by (bit_vector);
        assert(((0u64 >> 56) & 0xff) as u8 == 0u8) by (bit_vector);
    }
    assert forall|i: int| 0 <= i < 12 implies chacha_nonce(base, 0)[i] == base.subrange(0, 12)[i] by {
        if i < 8 {
            let b = base[i];
            assert(b ^ 0u8 == b) by (bit_vector);
        }
    }
    assert(chacha_nonce(base, 0) =~= base.subrange(0, 12));
    if c1 != c2 {
        let s1 = spec_u64_to_le_bytes(c1);
        let s2 = spec_u64_to_le_bytes(c2);
        if chacha_nonce(base, c1) == chacha_nonce(base, c2) {
            assert forall|i: int| 0 <= i < 8 implies s1[i] == s2[i] by {
                let b = base[i];
                let x = s1[i];
                let y = s2[i];
                assert(chacha_nonce(base, c1)[i] == chacha_nonce(base, c2)[i]);
                assert(b ^ x == b ^ y ==> x == y) by (bit_vector);
            }
            assert(s1 =~= s2);
        }
    }
}

/// The view of a byte-vector result.
pub open spec fn bytes_result(r: Result<Vec<u8>, CryptoError>) -> Result<Seq<u8>, CryptoError> {
    match r {
        Ok(v) => Ok(v@),
        Err(e) => Err(e),
    }
}

/// The outcome of AES-256-GCM-SIV decryption of `[nonce (12) | ciphertext +
/// tag]` under a 32-byte key.
pub open spec fn gcm_siv_decryption(key: Seq<u8>, data: Seq<u8>, aad: Seq<u8>) -> Result<Seq<u8>, CryptoError> {
    if data.len() < 28 {
        Err(CryptoError::DecryptionFailed)
    } else {
        match aes_gcm_siv_opened(key, data.subrange(0, 12), aad, data.subrange(12, data.len() as int)) {
            Some(p) => Ok(p),
            None => Err(CryptoError::DecryptionFailed),
        }
    }
}

/// The outcome of ChaCha20-Poly1305 decryption of `[ciphertext + tag]` under
/// a 32-byte key with the nonce built from the base and the write counter.
pub open spec fn chacha_decryption(key: Seq<u8>, base: Seq<u8>, counter: u64, data: Seq<u8>, aad: Seq<u8>) -> Result<Seq<u8>, CryptoError> {
    if data.len() < 16 {
        Err(CryptoError::DecryptionFailed)
    } else {
        match chacha20poly1305_opened(key, chacha_nonce(base, counter), aad, data) {
            Some(p) => Ok(p),
            None => Err(CryptoError::DecryptionFailed),
        }
    }
}

/// The error for a key that is not 32 bytes long.
pub open spec fn key_length_error(len: nat) -> CryptoError {
    CryptoError::InvalidKeyLength { expected: 32, got: len as usize }
}

/// Encrypts with AES-256-GCM-SIV under a fresh random nonce and returns
/// `[nonce (12) | ciphertext + tag (16)]`.  A key that is not 32 bytes long
/// is refused; otherwise encryption succeeds unless the random source fails
/// or the plaintext or associated data exceeds 2^36 bytes.  Decrypting the
/// output with the same key and associated data gives the plaintext back.
pub fn encrypt_aes_gcm_siv(key: &SecretBytes, plaintext: &[u8], aad: &[u8]) -> (r: Result<Vec<u8>, CryptoError>)
    ensures
        key@.len() != 32 ==> r == Err::<Vec<u8>, CryptoError>(key_length_error(key@.len())),
        key@.len() == 32 && plaintext@.len() <= aes_gcm_siv_limit() && aad@.len() <= aes_gcm_siv_limit()
            ==> (r is Ok || (r matches Err(e) && e is RngFailed)),
        key@.len() == 32 && !(plaintext@.len() <= aes_gcm_siv_limit() && aad@.len() <= aes_gcm_siv_limit())
            ==> (r matches Err(e) && (e is RngFailed || e is EncryptionFailed)),
        r matches Ok(c) ==> {
            &&& c@.len() == 12 + plaintext@.len() + 16
            &&& c@.subrange(12, c@.len() as int) == aes_gcm_siv_sealed(key@, c@.subrange(0, 12), aad@, plaintext@)
            &&& gcm_siv_decryption(key@, c@, aad@) == Ok::<Seq<u8>, CryptoError>(plaintext@)
        },
{
    let k = key.expose_secret();
    if k.len() != KEY_LEN {
        return Err(CryptoError::InvalidKeyLength { expected: KEY_LEN, got: k.len() });
    }
    let nonce = generate_random_bytes::<12>()?;
    match aes_gcm_siv_seal(k, nonce.as_slice(), aad, plaintext) {
        None => Err(CryptoError::EncryptionFailed {
            detail: String::from_str("AES-256-GCM-SIV encryption failed: aead::Error"),
        }),
        Some(sealed) => {
            let mut output: Vec<u8> = Vec::new();
            output.extend_from_slice(nonce.as_slice());
            output.extend_from_slice(sealed.as_slice());
            assert(output@.subrange(0, 12) =~= nonce@);
            assert(output@.subrange(12, output@.len() as int) =~= sealed@);
            Ok(output)
        },
    }
}

/// Decrypts `[nonce (12) | ciphertext + tag]` with AES-256-GCM-SIV.  A key
/// that is not 32 bytes long is refused; input shorter than 28 bytes, or
/// whose tag does not authenticate it under the key and associated data,
/// gives `DecryptionFailed`.
pub fn decrypt_aes_gcm_siv(key: &SecretBytes, ciphertext_with_nonce: &[u8], aad: &[u8]) -> (r: Result<Vec<u8>, CryptoError>)
    ensures
        key@.len() != 32 ==> r == Err::<Vec<u8>, CryptoError>(key_length_error(key@.len())),
        key@.len() == 32 ==> bytes_result(r) == gcm_siv_decryption(key@, ciphertext_with_nonce@, aad@),
{
    let k = key.expose_secret();
    if k.len() != KEY_LEN {
        return Err(CryptoError::InvalidKeyLength { expected: KEY_LEN, got: k.len() });
    }
    let data = ciphertext_with_nonce;
    if data.len() < GCM_SIV_NONCE_LEN + 16 {
        return Err(CryptoError::DecryptionFailed);
    }
    let nonce = vstd::slice::slice_subrange(data, 0, GCM_SIV_NONCE_LEN);
    let body = vstd::slice::slice_subrange(data, GCM_SIV_NONCE_LEN, data.len());
    match aes_gcm_siv_open(k, nonce, aad, body) {
        Some(p) => Ok(p),
        None => Err(CryptoError::DecryptionFailed),
    }
}

/// Encrypts with ChaCha20-Poly1305 under the nonce built from the base and
/// the write counter and returns `[ciphertext + tag (16)]`; the nonce is not
/// stored.  A key that is not 32 bytes long is refused; otherwise encryption
/// succeeds unless the plaintext spans 2^32 - 1 or more 64-byte blocks.
/// Decrypting with the same key, base, counter and associated data gives
/// the plaintext back.
pub fn encrypt_chacha20(key: &SecretBytes, nonce_base: &[u8; 24], write_counter: u64, plaintext: &[u8], aad: &[u8])
    -> (r: Result<Vec<u8>, CryptoError>)
    ensures
        key@.len() != 32 ==> r == Err::<Vec<u8>, CryptoError>(key_length_error(key@.len())),
        key@.len() == 32 ==> (r is Ok <==> chacha20poly1305_accepts(plaintext@.len())),
        key@.len() == 32 ==> (r matches Err(e) ==> e is EncryptionFailed),
        r matches Ok(c) ==> {
            &&& c@ == chacha20poly1305_sealed(key@, chacha_nonce(nonce_base@, write_counter), aad@, plaintext@)
            &&& c@.len() == plaintext@.len() + 16
            &&& chacha_decryption(key@, nonce_base@, write_counter, c@, aad@) == Ok::<Seq<u8>, CryptoError>(plaintext@)
        },
{
    let k = key.expose_secret();
    if k.len() != KEY_LEN {
        return Err(CryptoError::InvalidKeyLength { expected: KEY_LEN, got: k.len() });
    }
    let nonce = construct_chacha_nonce(nonce_base, write_counter)?;
    match chacha20poly1305_seal(k, nonce.as_slice(), aad, plaintext) {
        None => Err(CryptoError::EncryptionFailed {
            detail: String::from_str("ChaCha20-Poly1305 encryption failed: aead::Error"),
        }),
        Some(sealed) => Ok(sealed),
    }
}

/// Decrypts `[ciphertext + tag]` with ChaCha20-Poly1305 under the nonce
/// built from the base and the write counter.  A key that is not 32 bytes
/// long is refused; input shorter than 16 bytes, or whose tag does not
/// authenticate it, gives `DecryptionFailed`.
pub fn decrypt_chacha20(key: &SecretBytes, nonce_base: &[u8; 24], write_counter: u64, ciphertext: &[u8], aad: &[u8])
    -> (r: Result<Vec<u8>, CryptoError>)
    ensures
        key@.len() != 32 ==> r == Err::<Vec<u8>, CryptoError>(key_length_error(key@.len())),
        key@.len() == 32 ==> bytes_result(r) == chacha_decryption(key@, nonce_base@, write_counter, ciphertext@, aad@),
{
    let k = key.expose_secret();
    if k.len() != KEY_LEN {
        return Err(CryptoError::InvalidKeyLength { expected: KEY_LEN, got: k.len() });
    }
    if ciphertext.len() < 16 {
        return Err(CryptoError::DecryptionFailed);
    }
    let nonce = construct_chacha_nonce(nonce_base, write_counter)?;
    match chacha20poly1305_open(k, nonce.as_slice(), aad, ciphertext) {
        Some(p) => Ok(p),
        None => Err(CryptoError::DecryptionFailed),
    }
}

/// The outcome of decrypting with a chosen cipher.  ChaCha20-Poly1305 checks
/// for its nonce base and write counter before the key length.
pub open spec fn decryption(cipher: CipherChoice, key: Seq<u8>, data: Seq<u8>, aad: Seq<u8>,
    nonce_base: Option<Seq<u8>>, write_counter: Option<u64>) -> Result<Seq<u8>, CryptoError> {
    match cipher {
        CipherChoice::AesGcmSiv => if key.len() != 32 {
            Err(key_length_error(key.len()))
        } else {
            gcm_siv_decryption(key, data, aad)
        },
        CipherChoice::ChaCha20Poly1305 => match (nonce_base, write_counter) {
            (Some(base), Some(counter)) => if key.len() != 32 {
                Err(key_length_error(key.len()))
            } else {
                chacha_decryption(key, base, counter, data, aad)
            },
            _ => Err(CryptoError::DecryptionFailed),
        },
    }
}

/// The view of an optional nonce base.
pub open spec fn base_view(b: Option<&[u8; 24]>) -> Option<Seq<u8>> {
    match b {
        Some(a) => Some(a@),
        None => None,
    }
}

/// Encrypts with the chosen cipher.  ChaCha20-Poly1305 needs both the nonce
/// base and the write counter and refuses with `EncryptionFailed` when one
/// is missing, whatever the key; AES-256-GCM-SIV ignores them.  Whatever succeeds decrypts,
/// with the same arguments, to the plaintext.
pub fn encrypt(cipher: CipherChoice, key: &SecretBytes, plaintext: &[u8], aad: &[u8],
    nonce_base: Option<&[u8; 24]>, write_counter: Option<u64>) -> (r: Result<Vec<u8>, CryptoError>)
    ensures
        cipher == CipherChoice::ChaCha20Poly1305 && nonce_base is None
            ==> (r matches Err(CryptoError::EncryptionFailed { detail }) && detail@ == "ChaCha20 requires nonce_base"@),
        cipher == CipherChoice::ChaCha20Poly1305 && nonce_base is Some && write_counter is None
            ==> (r matches Err(CryptoError::EncryptionFailed { detail }) && detail@ == "ChaCha20 requires write_counter"@),
        (cipher == CipherChoice::AesGcmSiv || (nonce_base is Some && write_counter is Some)) && key@.len() != 32
            ==> r == Err::<Vec<u8>, CryptoError>(key_length_error(key@.len())),
        key@.len() == 32 && cipher == CipherChoice::ChaCha20Poly1305 && nonce_base is Some && write_counter is Some
            ==> (r is Ok <==> chacha20poly1305_accepts(plaintext@.len())),
        key@.len() == 32 && cipher == CipherChoice::ChaCha20Poly1305 && nonce_base is Some && write_counter is Some
            ==> (r matches Err(e) ==> e is EncryptionFailed),
        key@.len() == 32 && cipher == CipherChoice::AesGcmSiv
            && !(plaintext@.len() <= aes_gcm_siv_limit() && aad@.len() <= aes_gcm_siv_limit())
            ==> (r matches Err(e) && (e is RngFailed || e is EncryptionFailed)),
        cipher == CipherChoice::AesGcmSiv && r is Ok ==> (r matches Ok(c) && c@.len() == 12 + plaintext@.len() + 16),
        key@.len() == 32 && cipher == CipherChoice::AesGcmSiv && plaintext@.len() <= aes_gcm_siv_limit()
            && aad@.len() <= aes_gcm_siv_limit() ==> (r is Ok || (r matches Err(e) && e is RngFailed)),
        cipher == CipherChoice::ChaCha20Poly1305 && r is Ok ==> (r matches Ok(c)
            && nonce_base matches Some(b) && write_counter matches Some(n)
            && c@ == chacha20poly1305_sealed(key@, chacha_nonce(b@, n), aad@, plaintext@)),
        cipher == CipherChoice::AesGcmSiv && r is Ok ==> (r matches Ok(c) && c@.len() >= 12
            && c@.subrange(12, c@.len() as int) == aes_gcm_siv_sealed(key@, c@.subrange(0, 12), aad@, plaintext@)),
        r matches Ok(c) ==> decryption(cipher, key@, c@, aad@, base_view(nonce_base), write_counter)
            == Ok::<Seq<u8>, CryptoError>(plaintext@),
{
    match cipher {
        CipherChoice::AesGcmSiv => encrypt_aes_gcm_siv(key, plaintext, aad),
        CipherChoice::ChaCha20Poly1305 => {
            let base = match nonce_base {
                Some(b) => b,
                None => {
                    return Err(CryptoError::EncryptionFailed {
                        detail: String::from_str("ChaCha20 requires nonce_base"),
                    });
                },
            };
            let counter = match write_counter {
                Some(c) => c,
                None => {
                    return Err(CryptoError::EncryptionFailed {
                        detail: String::from_str("ChaCha20 requires write_counter"),
                    });
                },
            };
            encrypt_chacha20(key, base, counter, plaintext, aad)
        },
    }
}

/// Decrypts with the chosen cipher; ChaCha20-Poly1305 without a nonce base
/// or write counter gives `DecryptionFailed`.
pub fn decrypt(cipher: CipherChoice, key: &SecretBytes, ciphertext: &[u8], aad: &[u8],
    nonce_base: Option<&[u8; 24]>, write_counter: Option<u64>) -> (r: Result<Vec<u8>, CryptoError>)
    ensures
        bytes_result(r) == decryption(cipher, key@, ciphertext@, aad@, base_view(nonce_base), write_counter),
{
    match cipher {
        CipherChoice::AesGcmSiv => decrypt_aes_gcm_siv(key, ciphertext, aad),
        CipherChoice::ChaCha20Poly1305 => {
            let base = match nonce_base {
                Some(b) => b,
                None => { return Err(CryptoError::DecryptionFailed); },
            };
            let counter = match write_counter {
                Some(c) => c,
                None => { return Err(CryptoError::DecryptionFailed); },
            };
            decrypt_chacha20(key, base, counter, ciphertext, aad)
        },
    }
}

} // verus!
