//! Opening and creating vaults, and the sessions that hold their keys.
//!
//! A session keeps the vault's data key, which is derived deterministically
//! from the password: Argon2id gives the master key, HKDF-SHA256 with the
//! vault id and "vault-data-key-v1" gives the data key, and bytes 8..32 of
//! the data key are the ChaCha20 nonce base.  Callers hold only an integer
//! handle.  Reading the password from the terminal is the caller's part:
//! each operation that needs one is split into the checks that come before
//! the password is read and the work that follows.
use vstd::prelude::*;
use vstd::string::*;

use std::collections::HashMap;

use crate::crypto::{
    decrypt, decryption, derive_subkey, master_key_from, encrypt, generate_random_vec, hkdf_key_of,
    master_key_of, Argon2Params, CipherChoice, CryptoError, ARGON2_SALT_LEN, KEY_LEN,
};
use crate::header::{
    copy_array, header_fault, header_image, header_tag, lemma_image_layout, law_header_round_trip,
    law_stored_hmac_verifies, HeaderError, RegionLayout, VaultHeader, HEADER_AUTH_KEY_INFO, HEADER_SIZE,
};
use crate::hmac::{chain_outcome, hmac_outcome, HmacError};
use crate::input::InputError;
use crate::memory::{MemoryError, SecretBytes};
use crate::primitives::{
    aes_gcm_siv_limit, argon2_accepts, chacha20poly1305_accepts, hmac_sha256_tag, share_views,
};
use crate::shamir::{
    is_sharing_of, reconstruct_secret, reconstruction, split_refusal, split_secret, ShamirError, ShamirShare,
    SECRET_LEN,
};
use crate::text::{decimal, hex_byte, push_decimal, push_hex_byte, push_text};

verus! {

broadcast use vstd::std_specs::hash::group_hash_axioms;

/// HKDF info string of the vault data key: "vault-data-key-v1".
pub const VAULT_DATA_KEY_PURPOSE: [u8; 17] = [
    0x76, 0x61, 0x75, 0x6C, 0x74, 0x2D, 0x64, 0x61, 0x74, 0x61, 0x2D, 0x6B, 0x65, 0x79, 0x2D, 0x76, 0x31,
];

/// Errors of the vault operations, as reported to the caller.
#[derive(Debug, Clone, PartialEq)]
pub enum VaultError {
    /// A byte argument has the wrong length.
    WrongLength { name: &'static str, expected: usize, got: usize },
    /// The cipher byte names no cipher.
    UnknownCipher { byte: u8 },
    /// The header HMAC did not verify: wrong password or a damaged vault.
    AuthenticationFailed,
    /// No session has this handle.
    InvalidSession,
    /// A secret to split is not 32 bytes long.
    SecretLength { got: usize },
    /// An HMAC key is not 32 bytes long.
    HmacKeyLength { got: usize },
    /// A chaining key is not 32 bytes long.
    ChainKeyLength,
    /// An error of the cryptographic layer.
    Crypto(CryptoError),
    /// An error of header handling.
    Header(HeaderError),
    /// An error of password input.
    Input(InputError),
    /// An error of secret sharing.
    Shamir(ShamirError),
    /// An error of the audit HMAC operations.
    Hmac(HmacError),
    /// An error of the memory layer.
    Memory(MemoryError),
}

impl VaultError {
    /// The text shown to the user for this error.
    pub open spec fn message_text(&self) -> Seq<char> {
        match self {
            VaultError::WrongLength { name, expected, got } =>
                name@ + " must be "@ + decimal(*expected as nat) + " bytes, got "@ + decimal(*got as nat),
            VaultError::UnknownCipher { byte } => "Unknown cipher byte: 0x"@ + hex_byte(*byte),
            VaultError::AuthenticationFailed => "Incorrect password or vault is corrupted."@,
            VaultError::InvalidSession => "Invalid or expired session handle"@,
            VaultError::SecretLength { got } => "Secret must be 32 bytes, got "@ + decimal(*got as nat),
            VaultError::HmacKeyLength { got } => "HMAC key must be 32 bytes, got "@ + decimal(*got as nat),
            VaultError::ChainKeyLength => "HMAC key must be 32 bytes"@,
            VaultError::Crypto(e) => e.message_text(),
            VaultError::Header(e) => e.message_text(),
            VaultError::Input(e) => e.message_text(),
            VaultError::Shamir(e) => e.message_text(),
            VaultError::Hmac(e) => e.message_text(),
            VaultError::Memory(e) => e.message_text(),
        }
    }

    /// Renders the error as text.
    pub fn message(&self) -> (m: String)
        ensures
            m@ == self.message_text(),
    {
        match self {
            VaultError::WrongLength { name, expected, got } => {
                let mut m = String::new();
                push_text(&mut m, name);
                push_text(&mut m, " must be ");
                push_decimal(&mut m, *expected as u64);
                push_text(&mut m, " bytes, got ");
                push_decimal(&mut m, *got as u64);
                m
            },
            VaultError::UnknownCipher { byte } => {
                let mut m = String::new();
                push_text(&mut m, "Unknown cipher byte: 0x");
                push_hex_byte(&mut m, *byte);
                m
            },
            VaultError::AuthenticationFailed => String::from_str("Incorrect password or vault is corrupted."),
            VaultError::InvalidSession => String::from_str("Invalid or expired session handle"),
            VaultError::SecretLength { got } => {
                let mut m = String::new();
                push_text(&mut m, "Secret must be 32 bytes, got ");
                push_decimal(&mut m, *got as u64);
                m
            },
            VaultError::HmacKeyLength { got } => {
                let mut m = String::new();
                push_text(&mut m, "HMAC key must be 32 bytes, got ");
                push_decimal(&mut m, *got as u64);
                m
            },
            VaultError::ChainKeyLength => String::from_str("HMAC key must be 32 bytes"),
            VaultError::Crypto(e) => e.message(),
            VaultError::Header(e) => e.message(),
            VaultError::Input(e) => e.message(),
            VaultError::Shamir(e) => e.message(),
            VaultError::Hmac(e) => e.message(),
            VaultError::Memory(e) => e.message(),
        }
    }
}

/// Copies a byte argument into an array of length `N`; another length gives
/// `WrongLength` with the argument's name.
pub fn vec_to_arr<const N: usize>(v: &[u8], name: &'static str) -> (r: Result<[u8; N], VaultError>)
    ensures
        v@.len() == N ==> (r matches Ok(a) && a@ == v@),
        v@.len() != N ==> r == Err::<[u8; N], VaultError>(
            VaultError::WrongLength { name, expected: N, got: v@.len() as usize }),
{
    if v.len() != N {
        return Err(VaultError::WrongLength { name, expected: N, got: v.len() });
    }
    let a: [u8; N] = copy_array(v, 0);
    proof {
        assert(v@.subrange(0, N as int) =~= v@);
    }
    Ok(a)
}

/// The key that authenticates a vault's header.
pub open spec fn header_key_of(master: Seq<u8>, vault_id: Seq<u8>) -> Seq<u8> {
    hkdf_key_of(master, vault_id, HEADER_AUTH_KEY_INFO@)
}

/// A vault's data key: the same for every unlock with the same password.
pub open spec fn data_key_of(master: Seq<u8>, vault_id: Seq<u8>) -> Seq<u8> {
    hkdf_key_of(master, vault_id, VAULT_DATA_KEY_PURPOSE@)
}

/// Derives the vault data key from the master key and the vault id, and
/// takes bytes 8..32 of it as the ChaCha20 nonce base.  The master key is
/// consumed and zeroed.
pub fn derive_vault_data_key(master_key: SecretBytes, vault_id: &[u8; 16])
    -> (r: Result<(SecretBytes, [u8; 24]), VaultError>)
    ensures
        r matches Ok((key, base)) && key@ == data_key_of(master_key@, vault_id@) && key@.len() == 32
            && base@ == key@.subrange(8, 32) && !key.locked(),
{
    let mut master_key = master_key;
    let derived = derive_subkey(&master_key, vault_id, VAULT_DATA_KEY_PURPOSE.as_slice());
    master_key.zero_now();
    let (data_key, _) = match derived {
        Ok(d) => d,
        Err(e) => { return Err(VaultError::Crypto(e)); },
    };
    let nonce_base: [u8; 24] = copy_array(data_key.expose_secret(), 8);
    Ok((data_key, nonce_base))
}

/// An open vault: its data key, cipher, id and ChaCha20 nonce base.
pub struct Session {
    key: SecretBytes,
    cipher: CipherChoice,
    vault_id: [u8; 16],
    nonce_base: [u8; 24],
}

impl Session {
    /// The session's data key.
    pub closed spec fn key_bytes(&self) -> Seq<u8> {
        self.key@
    }

    /// The session's cipher.
    pub closed spec fn cipher_choice(&self) -> CipherChoice {
        self.cipher
    }

    /// The id of the session's vault.
    pub closed spec fn vault_id_bytes(&self) -> Seq<u8> {
        self.vault_id@
    }

    /// The session's ChaCha20 nonce base.
    pub closed spec fn nonce_base_bytes(&self) -> Seq<u8> {
        self.nonce_base@
    }

    /// Whether the pages of the session's key are locked in memory.
    pub closed spec fn key_locked(&self) -> bool {
        self.key.locked()
    }
}

/// Two sessions that hold the same key, cipher, vault id and nonce base.
pub open spec fn same_session(a: Session, b: Session) -> bool {
    &&& a.key_bytes() == b.key_bytes()
    &&& a.cipher_choice() == b.cipher_choice()
    &&& a.vault_id_bytes() == b.vault_id_bytes()
    &&& a.nonce_base_bytes() == b.nonce_base_bytes()
}

/// The handle that follows `n` (wrapping to zero after `u64::MAX`).
pub open spec fn next_after(n: u64) -> u64 {
    if n == u64::MAX { 0 } else { (n + 1) as u64 }
}

/// `new` is `old` with a session opened under `handle` holding the given
/// key, cipher and vault id, and bytes 8..32 of the key as nonce base.
pub open spec fn opened_session(old: Map<u64, Session>, new: Map<u64, Session>, handle: u64, key: Seq<u8>,
    cipher: CipherChoice, vault_id: Seq<u8>) -> bool {
    &&& new == old.insert(handle, new[handle])
    &&& new[handle].key_bytes() == key
    &&& new[handle].cipher_choice() == cipher
    &&& new[handle].vault_id_bytes() == vault_id
    &&& new[handle].nonce_base_bytes() == key.subrange(8, 32)
}

/// The open sessions, by handle.  Handles are handed out in increasing
/// order from 1.
pub struct SessionStore {
    sessions: HashMap<u64, Session>,
    next_handle: u64,
}

impl View for SessionStore {
    type V = Map<u64, Session>;

    closed spec fn view(&self) -> Map<u64, Session> {
        self.sessions@
    }
}

/// The outcome of a decryption in a session, as reported to the caller.
pub open spec fn session_decryption(sessions: Map<u64, Session>, handle: u64, data: Seq<u8>, aad: Seq<u8>,
    write_counter: Option<u64>) -> Result<Seq<u8>, VaultError> {
    if !sessions.contains_key(handle) {
        Err(VaultError::InvalidSession)
    } else {
        let s = sessions[handle];
        match decryption(s.cipher_choice(), s.key_bytes(), data, aad, Some(s.nonce_base_bytes()), write_counter) {
            Ok(p) => Ok(p),
            Err(e) => Err(VaultError::Crypto(e)),
        }
    }
}

impl SessionStore {
    /// Every session holds a 32-byte key whose bytes 8..32 are its nonce base.
    #[verifier::type_invariant]
    closed spec fn well_formed(self) -> bool {
        forall|h: u64| #[trigger] self.sessions@.contains_key(h) ==> {
            &&& self.sessions@[h].key@.len() == 32
            &&& self.sessions@[h].nonce_base@ == self.sessions@[h].key@.subrange(8, 32)
        }
    }

    /// The handle the next session will get.
    pub closed spec fn next(&self) -> u64 {
        self.next_handle
    }

    /// An empty store; the first handle is 1.
    pub fn new() -> (s: SessionStore)
        ensures
            s@ == Map::<u64, Session>::empty(),
            s.next() == 1,
    {
        SessionStore { sessions: HashMap::new(), next_handle: 1 }
    }

    /// Opens a session under the next handle.
    fn open_session(&mut self, key: SecretBytes, cipher: CipherChoice, vault_id: [u8; 16], nonce_base: [u8; 24])
        -> (h: u64)
        requires
            key@.len() == 32,
            nonce_base@ == key@.subrange(8, 32),
        ensures
            h == old(self).next(),
            final(self)@[h].key_locked() == key.locked(),
            final(self).next() == next_after(old(self).next()),
            opened_session(old(self)@, final(self)@, h, key@, cipher, vault_id@),
    {
        let ghost key_view = key@;
        let ghost key_lock = key.locked();
        proof { use_type_invariant(&*self); }
        let h = self.next_handle;
        let mut sessions: HashMap<u64, Session> = HashMap::new();
        std::mem::swap(&mut sessions, &mut self.sessions);
        sessions.insert(h, Session { key, cipher, vault_id, nonce_base });
        assert(sessions@[h].key@ == key_view);
        assert(sessions@[h].key.locked() == key_lock);
        self.sessions = sessions;
        self.next_handle = self.next_handle.wrapping_add(1);
        h
    }

    /// Whether a session with this handle is open.
    pub fn session_active(&self, handle: u64) -> (b: bool)
        ensures
            b == self@.contains_key(handle),
    {
        self.sessions.contains_key(&handle)
    }

    /// The key of a session, so that the caller can lock its pages in memory
    /// (and unlock them before the session is locked).
    pub fn session_key(&self, handle: u64) -> (k: Option<&SecretBytes>)
        ensures
            match k {
                Some(key) => self@.contains_key(handle) && key@ == self@[handle].key_bytes()
                    && key.locked() == self@[handle].key_locked(),
                None => !self@.contains_key(handle),
            },
    {
        match self.sessions.get(&handle) {
            Some(s) => Some(&s.key),
            None => None,
        }
    }

    /// Locks a vault: its session is removed and its key zeroed.  An unknown
    /// handle is ignored.
    pub fn lock_session(&mut self, handle: u64)
        ensures
            final(self)@ == old(self)@.remove(handle),
            final(self).next() == old(self).next(),
    {
        proof { use_type_invariant(&*self); }
        let mut sessions: HashMap<u64, Session> = HashMap::new();
        std::mem::swap(&mut sessions, &mut self.sessions);
        let _ = sessions.remove(&handle);
        self.sessions = sessions;
    }

    /// Locks every vault and returns how many sessions were open.
    pub fn lock_all_sessions(&mut self) -> (n: usize)
        ensures
            n == old(self)@.len(),
            final(self)@ == Map::<u64, Session>::empty(),
            final(self).next() == old(self).next(),
    {
        let n = self.sessions.len();
        self.sessions = HashMap::new();
        n
    }

    /// Encrypts with a session's key, cipher and nonce base.  An unknown
    /// handle gives `InvalidSession`.  With ChaCha20-Poly1305 the write
    /// counter is needed; with AES-256-GCM-SIV it is ignored.  Whatever
    /// succeeds decrypts, in the same session, to the plaintext.
    pub fn encrypt_data(&self, handle: u64, plaintext: &[u8], aad: &[u8], write_counter: Option<u64>)
        -> (r: Result<Vec<u8>, VaultError>)
        ensures
            !self@.contains_key(handle) ==> r == Err::<Vec<u8>, VaultError>(VaultError::InvalidSession),
            self@.contains_key(handle) ==> (r matches Err(e) ==> e is Crypto),
            self@.contains_key(handle) && self@[handle].cipher_choice() == CipherChoice::ChaCha20Poly1305
                ==> (r is Ok <==> write_counter is Some && chacha20poly1305_accepts(plaintext@.len())),
            self@.contains_key(handle) && self@[handle].cipher_choice() == CipherChoice::ChaCha20Poly1305
                && write_counter is Some ==> (r matches Err(VaultError::Crypto(e)) ==> e is EncryptionFailed),
            self@.contains_key(handle) && self@[handle].cipher_choice() == CipherChoice::AesGcmSiv
                && plaintext@.len() <= aes_gcm_siv_limit() && aad@.len() <= aes_gcm_siv_limit()
                ==> (r is Ok || (r matches Err(VaultError::Crypto(e)) && e is RngFailed)),
            self@.contains_key(handle) && self@[handle].cipher_choice() == CipherChoice::AesGcmSiv
                && !(plaintext@.len() <= aes_gcm_siv_limit() && aad@.len() <= aes_gcm_siv_limit())
                ==> (r matches Err(VaultError::Crypto(e)) && (e is RngFailed || e is EncryptionFailed)),
            self@.contains_key(handle) && self@[handle].cipher_choice() == CipherChoice::AesGcmSiv
                ==> (r matches Ok(c) ==> c@.len() == 12 + plaintext@.len() + 16),
            r matches Ok(c) ==> session_decryption(self@, handle, c@, aad@, write_counter)
                == Ok::<Seq<u8>, VaultError>(plaintext@),
    {
        proof { use_type_invariant(self); }
        let s = match self.sessions.get(&handle) {
            Some(s) => s,
            None => { return Err(VaultError::InvalidSession); },
        };
        match encrypt(s.cipher, &s.key, plaintext, aad, Some(&s.nonce_base), write_counter) {
            Ok(c) => Ok(c),
            Err(e) => Err(VaultError::Crypto(e)),
        }
    }

    /// Decrypts with a session's key, cipher and nonce base.  An unknown
    /// handle gives `InvalidSession`; a failed decryption its crypto error.
    pub fn decrypt_data(&self, handle: u64, ciphertext: &[u8], aad: &[u8], write_counter: Option<u64>)
        -> (r: Result<Vec<u8>, VaultError>)
        ensures
            match r {
                Ok(p) => session_decryption(self@, handle, ciphertext@, aad@, write_counter)
                    == Ok::<Seq<u8>, VaultError>(p@),
                Err(e) => session_decryption(self@, handle, ciphertext@, aad@, write_counter)
                    == Err::<Seq<u8>, VaultError>(e),
            },
    {
        let s = match self.sessions.get(&handle) {
            Some(s) => s,
            None => { return Err(VaultError::InvalidSession); },
        };
        match decrypt(s.cipher, &s.key, ciphertext, aad, Some(&s.nonce_base), write_counter) {
            Ok(p) => Ok(p),
            Err(e) => Err(VaultError::Crypto(e)),
        }
    }
}

/// What encrypting in a session and decrypting the output in the same
/// session gives: the plaintext back.
pub proof fn law_session_round_trip(sessions: Map<u64, Session>, handle: u64, plaintext: Seq<u8>, aad: Seq<u8>,
    write_counter: Option<u64>, ciphertext: Seq<u8>)
    requires
        sessions.contains_key(handle),
        decryption(sessions[handle].cipher_choice(), sessions[handle].key_bytes(), ciphertext, aad,
            Some(sessions[handle].nonce_base_bytes()), write_counter) == Ok::<Seq<u8>, CryptoError>(plaintext),
    ensures
        session_decryption(sessions, handle, ciphertext, aad, write_counter) == Ok::<Seq<u8>, VaultError>(plaintext),
        session_decryption(sessions.remove(handle), handle, ciphertext, aad, write_counter)
            == Err::<Seq<u8>, VaultError>(VaultError::InvalidSession),
{
}

/// Whether Argon2id accepts a password of this length with these
/// parameters.
pub open spec fn derivation_ok(password: Seq<u8>, params: Argon2Params) -> bool {
    argon2_accepts(params.m_cost, params.t_cost, params.p_cost) && password.len() <= 0xFFFF_FFFF
}

/// What unlocking checks of the stored header bytes under the header key:
/// they must parse (so they must be 256 bytes long) and their HMAC must
/// verify.
pub open spec fn header_refusal(raw: Seq<u8>, header_key: Seq<u8>) -> Option<VaultError> {
    match header_fault(raw) {
        Some(e) => Some(VaultError::Header(e)),
        None => if hmac_sha256_tag(header_key, raw.subrange(0, 224)) == raw.subrange(224, 256) {
            None
        } else {
            Some(VaultError::AuthenticationFailed)
        },
    }
}

/// What unlocking a vault needs besides the password, checked before the
/// password is read.
pub struct UnlockRequest {
    /// The vault's id.
    pub vault_id: [u8; 16],
    /// The vault's Argon2id salt.
    pub salt: [u8; 16],
    /// The vault's cipher.
    pub cipher: CipherChoice,
    /// The vault's Argon2id parameters.
    pub params: Argon2Params,
}

/// Checks the arguments of an unlock, in order: the vault id is 16 bytes,
/// the salt 16 bytes, the cipher byte names a cipher, the Argon2id
/// parameters meet the minimums.
pub fn prepare_unlock(vault_id_bytes: &[u8], salt_bytes: &[u8], t_cost: u32, m_cost: u32, p_cost: u32,
    cipher_byte: u8) -> (r: Result<UnlockRequest, VaultError>)
    ensures
        vault_id_bytes@.len() != 16 ==> r == Err::<UnlockRequest, VaultError>(
            VaultError::WrongLength { name: "vault_id", expected: 16, got: vault_id_bytes@.len() as usize }),
        vault_id_bytes@.len() == 16 && salt_bytes@.len() != 16 ==> r == Err::<UnlockRequest, VaultError>(
            VaultError::WrongLength { name: "salt", expected: 16, got: salt_bytes@.len() as usize }),
        vault_id_bytes@.len() == 16 && salt_bytes@.len() == 16 && CipherChoice::from_byte(cipher_byte) is None
            ==> r == Err::<UnlockRequest, VaultError>(VaultError::UnknownCipher { byte: cipher_byte }),
        vault_id_bytes@.len() == 16 && salt_bytes@.len() == 16 && CipherChoice::from_byte(cipher_byte) is Some
            ==> match Argon2Params::validation(t_cost, m_cost, p_cost) {
                Err(e) => r == Err::<UnlockRequest, VaultError>(VaultError::Crypto(e)),
                Ok(p) => r matches Ok(q) && q.vault_id@ == vault_id_bytes@ && q.salt@ == salt_bytes@
                    && Some(q.cipher) == CipherChoice::from_byte(cipher_byte) && q.params == p,
            },
{
    let vault_id = vec_to_arr::<16>(vault_id_bytes, "vault_id")?;
    let salt = vec_to_arr::<ARGON2_SALT_LEN>(salt_bytes, "salt")?;
    let cipher = match CipherChoice::from_header_byte(cipher_byte) {
        Some(c) => c,
        None => { return Err(VaultError::UnknownCipher { byte: cipher_byte }); },
    };
    let params = match Argon2Params::new(t_cost, m_cost, p_cost) {
        Ok(p) => p,
        Err(e) => { return Err(VaultError::Crypto(e)); },
    };
    Ok(UnlockRequest { vault_id, salt, cipher, params })
}

/// Checks stored header bytes under the header key: they must parse, and
/// their HMAC must verify.
fn check_stored_header(raw_header_bytes: &[u8], header_key: &SecretBytes) -> (r: Result<(), VaultError>)
    ensures
        r is Ok <==> header_refusal(raw_header_bytes@, header_key@) is None,
        r matches Err(e) ==> header_refusal(raw_header_bytes@, header_key@) == Some(e),
{
    let parsed = match VaultHeader::deserialize(raw_header_bytes) {
        Ok(h) => h,
        Err(e) => { return Err(VaultError::Header(e)); },
    };
    let raw_arr = vec_to_arr::<HEADER_SIZE>(raw_header_bytes, "raw_header")?;
    if parsed.verify_hmac_raw(&raw_arr, header_key).is_err() {
        return Err(VaultError::AuthenticationFailed);
    }
    Ok(())
}

/// Whether a successful call of `lock_pages` on these key bytes was seen.
pub open spec fn pages_lock_succeeded<L: Fn(&[u8]) -> Result<(), MemoryError>>(lock_pages: &L, key: Seq<u8>) -> bool {
    exists|b: &[u8], o: Result<(), MemoryError>| b@ == key && o is Ok && #[trigger] lock_pages.ensures((b,), o)
}

/// Unlocks a vault with the password that was read: derives the master key,
/// checks the stored header bytes (they must parse, so they must be 256
/// bytes long, and their HMAC must verify under the header key, else
/// `AuthenticationFailed`), then opens a session with the vault data key and
/// returns its handle.  On any error no session is opened.  Each derived key
/// is handed to `lock_pages` as soon as it exists; the password (once
/// zeroed, when it is locked) and the master and header keys are handed to
/// `unlock_pages` before they are dropped, and the session key counts as
/// locked only when `lock_pages` succeeded on it.
pub fn complete_unlock<L, U>(store: &mut SessionStore, request: &UnlockRequest, raw_header_bytes: &[u8],
    password: SecretBytes, lock_pages: &L, unlock_pages: &U) -> (r: Result<u64, VaultError>)
    where
        L: Fn(&[u8]) -> Result<(), MemoryError>,
        U: Fn(&[u8]) -> Result<(), MemoryError>,
    requires
        request.params.p_cost <= 0x1FFF_FFFF,
        forall|b: &[u8]| #[trigger] lock_pages.requires((b,)),
        forall|b: &[u8]| #[trigger] unlock_pages.requires((b,)),
    ensures
        !derivation_ok(password@, request.params) ==> (r matches Err(VaultError::Crypto(e)) && e is Argon2Failed),
        derivation_ok(password@, request.params) ==> (r is Err <==> header_refusal(raw_header_bytes@,
            header_key_of(master_key_of(password@, request.salt@, request.params), request.vault_id@)) is Some),
        derivation_ok(password@, request.params) ==> (r matches Err(e) ==> header_refusal(raw_header_bytes@,
            header_key_of(master_key_of(password@, request.salt@, request.params), request.vault_id@)) == Some(e)),
        r is Err ==> final(store)@ == old(store)@ && final(store).next() == old(store).next(),
        r matches Ok(h) ==> h == old(store).next() && final(store).next() == next_after(old(store).next())
            && opened_session(old(store)@, final(store)@, h,
                data_key_of(master_key_of(password@, request.salt@, request.params), request.vault_id@),
                request.cipher, request.vault_id@),
        r matches Ok(h) && final(store)@[h].key_locked() ==> pages_lock_succeeded(lock_pages,
            data_key_of(master_key_of(password@, request.salt@, request.params), request.vault_id@)),
{
    let mut typed = password;
    let derived = master_key_from(&typed, &request.salt, &request.params);
    typed.zero_now();
    if typed.is_memory_locked() {
        let _ = unlock_pages(typed.expose_secret());
    }
    let (mut master_key, _) = match derived {
        Ok(d) => d,
        Err(e) => { return Err(VaultError::Crypto(e)); },
    };
    let outcome = lock_pages(master_key.expose_secret());
    let _ = master_key.record_lock(outcome);
    let (mut header_key, _) = match derive_subkey(&master_key, &request.vault_id, HEADER_AUTH_KEY_INFO.as_slice()) {
        Ok(d) => d,
        Err(e) => {
            if master_key.is_memory_locked() {
                let _ = unlock_pages(master_key.expose_secret());
            }
            return Err(VaultError::Crypto(e));
        },
    };
    let outcome = lock_pages(header_key.expose_secret());
    let _ = header_key.record_lock(outcome);
    let checked = check_stored_header(raw_header_bytes, &header_key);
    if header_key.is_memory_locked() {
        let _ = unlock_pages(header_key.expose_secret());
    }
    if master_key.is_memory_locked() {
        let _ = unlock_pages(master_key.expose_secret());
    }
    match checked {
        Ok(()) => {},
        Err(e) => { return Err(e); },
    }
    let (mut data_key, nonce_base) = derive_vault_data_key(master_key, &request.vault_id)?;
    let data_bytes = data_key.expose_secret();
    let outcome = lock_pages(data_bytes);
    proof {
        if outcome is Ok {
            assert(lock_pages.ensures((data_bytes,), outcome));
        }
    }
    let _ = data_key.record_lock(outcome);
    let handle = store.open_session(data_key, request.cipher, request.vault_id, nonce_base);
    Ok(handle)
}

/// Checks the arguments of a vault creation, in order: the cipher byte names
/// a cipher, the Argon2id parameters meet the minimums.
pub fn prepare_create(cipher_byte: u8, t_cost: u32, m_cost: u32, p_cost: u32)
    -> (r: Result<(CipherChoice, Argon2Params), VaultError>)
    ensures
        CipherChoice::from_byte(cipher_byte) is None
            ==> r == Err::<(CipherChoice, Argon2Params), VaultError>(VaultError::UnknownCipher { byte: cipher_byte }),
        CipherChoice::from_byte(cipher_byte) is Some ==> match Argon2Params::validation(t_cost, m_cost, p_cost) {
            Err(e) => r == Err::<(CipherChoice, Argon2Params), VaultError>(VaultError::Crypto(e)),
            Ok(p) => r matches Ok((c, q)) && Some(c) == CipherChoice::from_byte(cipher_byte) && q == p,
        },
{
    let cipher = match CipherChoice::from_header_byte(cipher_byte) {
        Some(c) => c,
        None => { return Err(VaultError::UnknownCipher { byte: cipher_byte }); },
    };
    let params = match Argon2Params::new(t_cost, m_cost, p_cost) {
        Ok(p) => p,
        Err(e) => { return Err(VaultError::Crypto(e)); },
    };
    Ok((cipher, params))
}

/// The header of a vault created with this password, cipher and
/// parameters: write counter zero, no regions, and the HMAC of its other
/// fields under the header key of the master key derived from the password
/// and the header's own salt and vault id.
pub open spec fn is_new_vault_header(hd: VaultHeader, password: Seq<u8>, cipher: CipherChoice,
    params: Argon2Params) -> bool {
    &&& hd.cipher == cipher
    &&& hd.argon2_params == params
    &&& hd.write_counter == 0
    &&& hd.regions == (RegionLayout { region_a_offset: 0, region_a_len: 0, region_b_offset: 0, region_b_len: 0 })
    &&& hd.header_hmac@ == header_tag(
        header_key_of(master_key_of(password, hd.argon2_salt@, params), hd.vault_id@), hd)
}

/// Creates a vault with the password that was read (and confirmed): a new
/// header with random id, salt, nonce base and padding seed, the master key
/// derived from the password and the new salt, the header HMAC stored, a
/// session opened with the vault data key.  Returns the handle and the
/// 256-byte header.  Fails when the random source or the clock fails, or
/// when Argon2id refuses the parameters or the password; then no session is
/// opened.  Derived keys go to `lock_pages` and `unlock_pages` as in
/// `complete_unlock`.
pub fn complete_create<L, U>(store: &mut SessionStore, cipher: CipherChoice, params: Argon2Params,
    password: SecretBytes, lock_pages: &L, unlock_pages: &U) -> (r: Result<(u64, Vec<u8>), VaultError>)
    where
        L: Fn(&[u8]) -> Result<(), MemoryError>,
        U: Fn(&[u8]) -> Result<(), MemoryError>,
    requires
        params.p_cost <= 0x1FFF_FFFF,
        forall|b: &[u8]| #[trigger] lock_pages.requires((b,)),
        forall|b: &[u8]| #[trigger] unlock_pages.requires((b,)),
    ensures
        !derivation_ok(password@, params) ==> r is Err,
        r matches Err(e) ==> (e matches VaultError::Crypto(c) && c is Argon2Failed && !derivation_ok(password@, params))
            || (e matches VaultError::Header(h) && ((h matches HeaderError::CryptoError(c) && c is RngFailed)
                || h is TimeError)),
        r is Err ==> final(store)@ == old(store)@ && final(store).next() == old(store).next(),
        r matches Ok((h, bytes)) ==> h == old(store).next() && final(store).next() == next_after(old(store).next()),
        r matches Ok((h, bytes)) ==> exists|hd: VaultHeader| #[trigger] is_new_vault_header(hd, password@, cipher, params)
            && bytes@ == header_image(hd)
            && opened_session(old(store)@, final(store)@, h,
                data_key_of(master_key_of(password@, hd.argon2_salt@, params), hd.vault_id@), cipher, hd.vault_id@)
            && (final(store)@[h].key_locked() ==> pages_lock_succeeded(lock_pages,
                data_key_of(master_key_of(password@, hd.argon2_salt@, params), hd.vault_id@))),
{
    let mut vault_header = match VaultHeader::new(cipher, params) {
        Ok(h) => h,
        Err(e) => { return Err(VaultError::Header(e)); },
    };
    let vault_id = vault_header.vault_id;
    let salt = vault_header.argon2_salt;
    let mut typed = password;
    let derived = master_key_from(&typed, &salt, &vault_header.argon2_params);
    typed.zero_now();
    if typed.is_memory_locked() {
        let _ = unlock_pages(typed.expose_secret());
    }
    let (mut master_key, _) = match derived {
        Ok(d) => d,
        Err(e) => { return Err(VaultError::Crypto(e)); },
    };
    let outcome = lock_pages(master_key.expose_secret());
    let _ = master_key.record_lock(outcome);
    let (mut header_key, _) = match derive_subkey(&master_key, &vault_id, HEADER_AUTH_KEY_INFO.as_slice()) {
        Ok(d) => d,
        Err(e) => {
            if master_key.is_memory_locked() {
                let _ = unlock_pages(master_key.expose_secret());
            }
            return Err(VaultError::Crypto(e));
        },
    };
    let outcome = lock_pages(header_key.expose_secret());
    let _ = header_key.record_lock(outcome);
    let ghost before = vault_header;
    let stored = vault_header.compute_and_store_hmac(&header_key);
    if header_key.is_memory_locked() {
        let _ = unlock_pages(header_key.expose_secret());
    }
    if master_key.is_memory_locked() {
        let _ = unlock_pages(master_key.expose_secret());
    }
    match stored {
        Ok(()) => {},
        Err(e) => { return Err(VaultError::Header(e)); },
    }
    proof {
        assert(header_tag(header_key@, vault_header) == header_tag(header_key@, before)) by {
            law_stored_hmac_verifies(before, vault_header, header_key@);
        }
    }
    let (mut data_key, nonce_base) = derive_vault_data_key(master_key, &vault_id)?;
    let data_bytes = data_key.expose_secret();
    let outcome = lock_pages(data_bytes);
    proof {
        if outcome is Ok {
            assert(lock_pages.ensures((data_bytes,), outcome));
        }
    }
    let _ = data_key.record_lock(outcome);
    let handle = store.open_session(data_key, cipher, vault_id, nonce_base);
    let header_bytes = match vault_header.serialize() {
        Ok(b) => b,
        Err(e) => { return Err(VaultError::Header(e)); },
    };
    let bytes = vstd::slice::slice_to_vec(header_bytes.as_slice());
    assert(is_new_vault_header(vault_header, password@, cipher, params));
    Ok((handle, bytes))
}

/// A vault that was created with a password unlocks with the same password
/// when the unlock is given the vault id, salt and parameters recorded in the
/// created header: the header bytes pass every check, and the session gets
/// the same data key (and so the same nonce base) as the creating session.
pub proof fn law_created_vault_unlocks(hd: VaultHeader, password: Seq<u8>, cipher: CipherChoice,
    params: Argon2Params, request: UnlockRequest)
    requires
        is_new_vault_header(hd, password, cipher, params),
        params.meets_minimums(),
        request.vault_id@ == header_image(hd).subrange(8, 24),
        request.salt@ == header_image(hd).subrange(61, 77),
        request.params == params,
    ensures
        header_refusal(header_image(hd),
            header_key_of(master_key_of(password, request.salt@, request.params), request.vault_id@)) is None,
        data_key_of(master_key_of(password, request.salt@, request.params), request.vault_id@)
            == data_key_of(master_key_of(password, hd.argon2_salt@, params), hd.vault_id@),
{
    lemma_image_layout(hd);
    law_header_round_trip(hd);
    let key = header_key_of(master_key_of(password, hd.argon2_salt@, params), hd.vault_id@);
    law_stored_hmac_verifies(hd, hd, key);
}

/// Splits a 32-byte secret into shares and returns their bytes.  A secret of
/// another length gives `SecretLength`; the split's own refusals come next.
pub fn shamir_split(secret_bytes: Vec<u8>, threshold: u8, total_shares: u8) -> (r: Result<Vec<Vec<u8>>, VaultError>)
    ensures
        secret_bytes@.len() != SECRET_LEN ==> r == Err::<Vec<Vec<u8>>, VaultError>(
            VaultError::SecretLength { got: secret_bytes@.len() as usize }),
        secret_bytes@.len() == SECRET_LEN ==> match split_refusal(SECRET_LEN as nat, threshold, total_shares) {
            Some(e) => r == Err::<Vec<Vec<u8>>, VaultError>(VaultError::Shamir(e)),
            None => r matches Ok(v) && v@.len() == total_shares
                && is_sharing_of(secret_bytes@, threshold, share_views(v@)),
        },
{
    if secret_bytes.len() != SECRET_LEN {
        return Err(VaultError::SecretLength { got: secret_bytes.len() });
    }
    let ghost secret_view = secret_bytes@;
    let (secret, _) = match SecretBytes::new(secret_bytes) {
        Ok(s) => s,
        Err(e) => { return Err(VaultError::Memory(e)); },
    };
    let shares = match split_secret(&secret, threshold, total_shares) {
        Ok(s) => s,
        Err(e) => { return Err(VaultError::Shamir(e)); },
    };
    let mut out: Vec<Vec<u8>> = Vec::new();
    let mut i: usize = 0;
    while i < shares.len()
        invariant
            i <= shares@.len(),
            out@.len() == i,
            forall|j: int| 0 <= j < i ==> (#[trigger] out@[j])@ == shares@[j]@,
        decreases shares@.len() - i,
    {
        out.push(vstd::slice::slice_to_vec(shares[i].as_bytes()));
        i = i + 1;
    }
    proof {
        assert(share_views(out@) =~= crate::shamir::share_bytes(shares@));
    }
    Ok(out)
}

/// Rebuilds a secret from share bytes and returns its bytes.
pub fn shamir_reconstruct(share_bytes_list: Vec<Vec<u8>>, threshold: u8) -> (r: Result<Vec<u8>, VaultError>)
    ensures
        match r {
            Ok(s) => reconstruction(share_views(share_bytes_list@), threshold) == Ok::<Seq<u8>, ShamirError>(s@),
            Err(e) => e matches VaultError::Shamir(se)
                && reconstruction(share_views(share_bytes_list@), threshold) == Err::<Seq<u8>, ShamirError>(se),
        },
{
    let mut shares: Vec<ShamirShare> = Vec::new();
    let mut i: usize = 0;
    while i < share_bytes_list.len()
        invariant
            i <= share_bytes_list@.len(),
            shares@.len() == i,
            forall|j: int| 0 <= j < i ==> (#[trigger] shares@[j])@ == share_bytes_list@[j]@,
        decreases share_bytes_list@.len() - i,
    {
        shares.push(ShamirShare::from_bytes(vstd::slice::slice_to_vec(share_bytes_list[i].as_slice())));
        i = i + 1;
    }
    proof {
        assert(crate::shamir::share_bytes(shares@) =~= share_views(share_bytes_list@));
    }
    match reconstruct_secret(shares.as_slice(), threshold) {
        Ok(secret) => Ok(vstd::slice::slice_to_vec(secret.expose_secret())),
        Err(e) => Err(VaultError::Shamir(e)),
    }
}

/// HMAC-SHA256 of data under a 32-byte key; another key length gives
/// `HmacKeyLength`, empty data the HMAC layer's error.
pub fn compute_hmac(key_bytes: Vec<u8>, data: &[u8]) -> (r: Result<Vec<u8>, VaultError>)
    ensures
        key_bytes@.len() != KEY_LEN ==> r == Err::<Vec<u8>, VaultError>(
            VaultError::HmacKeyLength { got: key_bytes@.len() as usize }),
        key_bytes@.len() == KEY_LEN ==> match hmac_outcome(key_bytes@, data@) {
            Ok(t) => r matches Ok(v) && v@ == t,
            Err(e) => r == Err::<Vec<u8>, VaultError>(VaultError::Hmac(e)),
        },
{
    if key_bytes.len() != KEY_LEN {
        return Err(VaultError::HmacKeyLength { got: key_bytes.len() });
    }
    let (key, _) = match SecretBytes::new(key_bytes) {
        Ok(s) => s,
        Err(e) => { return Err(VaultError::Memory(e)); },
    };
    match crate::hmac::compute_hmac(&key, data) {
        Ok(t) => Ok(vstd::slice::slice_to_vec(t.as_slice())),
        Err(e) => Err(VaultError::Hmac(e)),
    }
}

/// The chained audit tag HMAC(key, entry || previous tag) under a 32-byte
/// key.  Checked in order: key length (`ChainKeyLength`), previous tag of 32
/// bytes (`WrongLength`), non-empty entry.
pub fn chain_hmac(key_bytes: Vec<u8>, entry_data: &[u8], prev_hmac: &[u8]) -> (r: Result<Vec<u8>, VaultError>)
    ensures
        key_bytes@.len() != KEY_LEN ==> r == Err::<Vec<u8>, VaultError>(VaultError::ChainKeyLength),
        key_bytes@.len() == KEY_LEN && prev_hmac@.len() != 32 ==> r == Err::<Vec<u8>, VaultError>(
            VaultError::WrongLength { name: "prev_hmac", expected: 32, got: prev_hmac@.len() as usize }),
        key_bytes@.len() == KEY_LEN && prev_hmac@.len() == 32 ==> match chain_outcome(key_bytes@, entry_data@, prev_hmac@) {
            Ok(t) => r matches Ok(v) && v@ == t,
            Err(e) => r == Err::<Vec<u8>, VaultError>(VaultError::Hmac(e)),
        },
{
    if key_bytes.len() != KEY_LEN {
        return Err(VaultError::ChainKeyLength);
    }
    let prev_arr = vec_to_arr::<32>(prev_hmac, "prev_hmac")?;
    let (key, _) = match SecretBytes::new(key_bytes) {
        Ok(s) => s,
        Err(e) => { return Err(VaultError::Memory(e)); },
    };
    match crate::hmac::chain_hmac(&key, entry_data, &prev_arr) {
        Ok(t) => Ok(vstd::slice::slice_to_vec(t.as_slice())),
        Err(e) => Err(VaultError::Hmac(e)),
    }
}

/// `n` bytes from the operating system's random source.
pub fn random_bytes(n: usize) -> (r: Result<Vec<u8>, VaultError>)
    ensures
        r matches Ok(v) ==> v@.len() == n,
        r matches Err(e) ==> (e matches VaultError::Crypto(c) && c is RngFailed),
{
    match generate_random_vec(n) {
        Ok(v) => Ok(v),
        Err(e) => Err(VaultError::Crypto(e)),
    }
}

} // verus!
