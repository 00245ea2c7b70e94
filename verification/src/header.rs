//! The 256-byte vault header: its layout, its parsing with the checks that
//! refuse foreign or weakened headers, and its HMAC-SHA256 authenticator.
//!
//! Layout (all integers little-endian):
//! magic 0..8, vault id 8..24, creation time 24..32, cipher 32, reserved
//! 33..48, KDF 48, Argon2id t/m/p 49..61, salt 61..77, KDF padding 77..84,
//! ChaCha20 nonce base 84..108, write counter 108..116, region A offset and
//! length 116..132, region B offset and length 132..148, padding seed
//! 148..180, header padding 180..224, HMAC 224..256.
use vstd::prelude::*;
use vstd::string::*;

use vstd::bytes::{
    spec_u32_from_le_bytes, spec_u32_to_le_bytes, spec_u64_from_le_bytes, spec_u64_to_le_bytes,
    u32_from_le_bytes, u32_to_le_bytes, u64_from_le_bytes, u64_to_le_bytes,
};

use crate::crypto::{generate_random_bytes, Argon2Params, CipherChoice, CryptoError};
use crate::memory::SecretBytes;
use crate::primitives::{ct_eq_bytes, hmac_sha256, hmac_sha256_tag, unix_time_now};
use crate::text::{decimal, hex_byte, push_decimal, push_hex_byte, push_text};

verus! {

broadcast use vstd::array::group_array_axioms;

/// The magic bytes that open every container: ASCII "PHVLT100".
pub const HEADER_MAGIC: [u8; 8] = [0x50, 0x48, 0x56, 0x4C, 0x54, 0x31, 0x30, 0x30];
/// Total header size in bytes.
pub const HEADER_SIZE: usize = 256;
/// Offset of the HMAC; it authenticates bytes `0..HMAC_OFFSET`.
pub const HMAC_OFFSET: usize = 224;
/// Length of the HMAC.
pub const HMAC_LEN: usize = 32;
/// HKDF info string of the header authentication key: "header-auth-key-v1".
pub const HEADER_AUTH_KEY_INFO: [u8; 18] = [
    0x68, 0x65, 0x61, 0x64, 0x65, 0x72, 0x2D, 0x61, 0x75, 0x74, 0x68, 0x2D, 0x6B, 0x65, 0x79, 0x2D,
    0x76, 0x31,
];
/// KDF identifier byte of Argon2id.
pub const KDF_ARGON2ID: u8 = 0x01;

/// Errors of header handling.
#[derive(Debug, Clone, PartialEq)]
pub enum HeaderError {
    /// The input is not 256 bytes long.
    InvalidLength { got: usize },
    /// The magic bytes are not "PHVLT100".
    InvalidMagic,
    /// The cipher byte names no cipher.
    UnknownCipher { byte: u8 },
    /// The KDF byte is not Argon2id.
    UnknownKdf { byte: u8 },
    /// The Argon2id parameters are below the enforced minimums.
    ParamsBelowMinimum(CryptoError),
    /// The HMAC does not authenticate the header (wrong password or tampering).
    HmacVerificationFailed,
    /// The write counter would overflow.
    WriteCounterOverflow,
    /// An error of the cryptographic layer.
    CryptoError(CryptoError),
    /// The system clock could not be read.
    TimeError,
}

impl HeaderError {
    /// The text shown to the user for this error.
    pub open spec fn message_text(&self) -> Seq<char> {
        match self {
            HeaderError::InvalidLength { got } =>
                "Header must be exactly "@ + decimal(256) + " bytes, got "@ + decimal(*got as nat),
            HeaderError::InvalidMagic =>
                "Not a valid PhantomVault container. The file may be corrupted or is not a PhantomVault vault."@,
            HeaderError::UnknownCipher { byte } => "Unknown cipher identifier: 0x"@ + hex_byte(*byte),
            HeaderError::UnknownKdf { byte } => "Unknown KDF identifier: 0x"@ + hex_byte(*byte),
            HeaderError::ParamsBelowMinimum(e) =>
                "Vault security parameters are below minimum: "@ + e.message_text(),
            HeaderError::HmacVerificationFailed => "Incorrect password or vault data is corrupted."@,
            HeaderError::WriteCounterOverflow =>
                "Write counter overflow. Vault has been used an extraordinary number of times."@,
            HeaderError::CryptoError(e) => "Cryptographic error: "@ + e.message_text(),
            HeaderError::TimeError => "Could not read system time for vault creation timestamp."@,
        }
    }

    /// Renders the error as text.
    pub fn message(&self) -> (m: String)
        ensures
            m@ == self.message_text(),
    {
        let mut m = String::new();
        match self {
            HeaderError::InvalidLength { got } => {
                push_text(&mut m, "Header must be exactly ");
                push_decimal(&mut m, HEADER_SIZE as u64);
                push_text(&mut m, " bytes, got ");
                push_decimal(&mut m, *got as u64);
            },
            HeaderError::InvalidMagic => {
                push_text(&mut m, "Not a valid PhantomVault container. The file may be corrupted or is not a PhantomVault vault.");
            },
            HeaderError::UnknownCipher { byte } => {
                push_text(&mut m, "Unknown cipher identifier: 0x");
                push_hex_byte(&mut m, *byte);
            },
            HeaderError::UnknownKdf { byte } => {
                push_text(&mut m, "Unknown KDF identifier: 0x");
                push_hex_byte(&mut m, *byte);
            },
            HeaderError::ParamsBelowMinimum(e) => {
                push_text(&mut m, "Vault security parameters are below minimum: ");
                let inner = e.message();
                push_text(&mut m, inner.as_str());
            },
            HeaderError::HmacVerificationFailed => {
                push_text(&mut m, "Incorrect password or vault data is corrupted.");
            },
            HeaderError::WriteCounterOverflow => {
                push_text(&mut m, "Write counter overflow. Vault has been used an extraordinary number of times.");
            },
            HeaderError::CryptoError(e) => {
                push_text(&mut m, "Cryptographic error: ");
                let inner = e.message();
                push_text(&mut m, inner.as_str());
            },
            HeaderError::TimeError => {
                push_text(&mut m, "Could not read system time for vault creation timestamp.");
            },
        }
        m
    }

    /// Wraps an error of the cryptographic layer.
    pub fn from(e: CryptoError) -> (r: HeaderError)
        ensures
            r == HeaderError::CryptoError(e),
    {
        HeaderError::CryptoError(e)
    }
}

/// Where the two encrypted regions sit in the container.
#[derive(Debug, Clone, Copy, PartialEq, Eq, Structural)]
pub struct RegionLayout {
    /// Byte offset of region A from the start of the file.
    pub region_a_offset: u64,
    /// Byte length of region A.
    pub region_a_len: u64,
    /// Byte offset of region B from the start of the file.
    pub region_b_offset: u64,
    /// Byte length of region B.
    pub region_b_len: u64,
}

impl RegionLayout {
    /// The layout with every field zero, used before the regions are placed.
    pub fn zeroed() -> (r: RegionLayout)
        ensures
            r == (RegionLayout { region_a_offset: 0, region_a_len: 0, region_b_offset: 0, region_b_len: 0 }),
    {
        RegionLayout { region_a_offset: 0, region_a_len: 0, region_b_offset: 0, region_b_len: 0 }
    }

    /// Whether both regions are non-empty and do not overlap.
    pub open spec fn is_valid(self) -> bool {
        &&& self.region_a_len > 0
        &&& self.region_b_len > 0
        &&& (self.region_a_offset + self.region_a_len <= self.region_b_offset
            || self.region_b_offset + self.region_b_len <= self.region_a_offset)
    }

    /// Checks that both regions are non-empty and do not overlap.  Region
    /// ends are computed in 128 bits, so a region reaching past `u64::MAX`
    /// is judged like any other.
    pub fn validate(&self) -> (b: bool)
        ensures
            b == self.is_valid(),
    {
        if self.region_a_len == 0 || self.region_b_len == 0 {
            return false;
        }
        let a_end: u128 = self.region_a_offset as u128 + self.region_a_len as u128;
        let b_end: u128 = self.region_b_offset as u128 + self.region_b_len as u128;
        (a_end <= self.region_b_offset as u128) || (b_end <= self.region_a_offset as u128)
    }
}

/// A valid layout's regions share no byte.
pub proof fn law_valid_regions_are_disjoint(r: RegionLayout, pos: int)
    requires
        r.is_valid(),
    ensures
        !(r.region_a_offset <= pos < r.region_a_offset + r.region_a_len
            && r.region_b_offset <= pos < r.region_b_offset + r.region_b_len),
{
}

/// The in-memory form of the 256-byte header.
#[derive(Debug, Clone)]
pub struct VaultHeader {
    /// Random 16-byte identifier of the vault (the HKDF salt).
    pub vault_id: [u8; 16],
    /// Unix time of creation; informational only.
    pub created_at: u64,
    /// The cipher of the vault's regions.
    pub cipher: CipherChoice,
    /// The Argon2id parameters.
    pub argon2_params: Argon2Params,
    /// Random 16-byte Argon2id salt.
    pub argon2_salt: [u8; 16],
    /// Random 24-byte base of the ChaCha20-Poly1305 nonces.
    pub chacha20_nonce_base: [u8; 24],
    /// Monotonic counter of ChaCha20-Poly1305 encryptions.
    pub write_counter: u64,
    /// Where the two encrypted regions sit.
    pub regions: RegionLayout,
    /// Random seed of the container padding.
    pub padding_seed: [u8; 32],
    /// HMAC-SHA256 over header bytes `0..224`.
    pub header_hmac: [u8; 32],
}

/// `n` zero bytes.
pub open spec fn zeros(n: nat) -> Seq<u8> {
    Seq::new(n, |i: int| 0u8)
}

/// The authenticated first 224 bytes of a header's binary form.
pub open spec fn header_prefix(h: VaultHeader) -> Seq<u8> {
    HEADER_MAGIC@
        + h.vault_id@
        + spec_u64_to_le_bytes(h.created_at)
        + seq![h.cipher.header_byte()]
        + zeros(15)
        + seq![KDF_ARGON2ID]
        + spec_u32_to_le_bytes(h.argon2_params.t_cost)
        + spec_u32_to_le_bytes(h.argon2_params.m_cost)
        + spec_u32_to_le_bytes(h.argon2_params.p_cost)
        + h.argon2_salt@
        + zeros(7)
        + h.chacha20_nonce_base@
        + spec_u64_to_le_bytes(h.write_counter)
        + spec_u64_to_le_bytes(h.regions.region_a_offset)
        + spec_u64_to_le_bytes(h.regions.region_a_len)
        + spec_u64_to_le_bytes(h.regions.region_b_offset)
        + spec_u64_to_le_bytes(h.regions.region_b_len)
        + h.padding_seed@
        + zeros(44)
}

/// The 256-byte binary form of a header: the authenticated prefix followed
/// by the HMAC.
pub open spec fn header_image(h: VaultHeader) -> Seq<u8> {
    header_prefix(h) + h.header_hmac@
}

/// The first check that a 256-byte candidate fails, in the order length,
/// magic, cipher, KDF, Argon2id minimums; `None` when it passes them all.
pub open spec fn header_fault(b: Seq<u8>) -> Option<HeaderError> {
    if b.len() != 256 {
        Some(HeaderError::InvalidLength { got: b.len() as usize })
    } else if b.subrange(0, 8) != HEADER_MAGIC@ {
        Some(HeaderError::InvalidMagic)
    } else if CipherChoice::from_byte(b[32]) is None {
        Some(HeaderError::UnknownCipher { byte: b[32] })
    } else if b[48] != KDF_ARGON2ID {
        Some(HeaderError::UnknownKdf { byte: b[48] })
    } else {
        match Argon2Params::validation(
            spec_u32_from_le_bytes(b.subrange(49, 53)),
            spec_u32_from_le_bytes(b.subrange(53, 57)),
            spec_u32_from_le_bytes(b.subrange(57, 61)),
        ) {
            Err(e) => Some(HeaderError::ParamsBelowMinimum(e)),
            Ok(_) => None,
        }
    }
}

/// Whether every field of `h` is the one that bytes `b` record.
pub open spec fn decodes_to(b: Seq<u8>, h: VaultHeader) -> bool {
    &&& h.vault_id@ == b.subrange(8, 24)
    &&& h.created_at == spec_u64_from_le_bytes(b.subrange(24, 32))
    &&& CipherChoice::from_byte(b[32]) == Some(h.cipher)
    &&& h.argon2_params == (Argon2Params {
        t_cost: spec_u32_from_le_bytes(b.subrange(49, 53)),
        m_cost: spec_u32_from_le_bytes(b.subrange(53, 57)),
        p_cost: spec_u32_from_le_bytes(b.subrange(57, 61)),
    })
    &&& h.argon2_salt@ == b.subrange(61, 77)
    &&& h.chacha20_nonce_base@ == b.subrange(84, 108)
    &&& h.write_counter == spec_u64_from_le_bytes(b.subrange(108, 116))
    &&& h.regions == (RegionLayout {
        region_a_offset: spec_u64_from_le_bytes(b.subrange(116, 124)),
        region_a_len: spec_u64_from_le_bytes(b.subrange(124, 132)),
        region_b_offset: spec_u64_from_le_bytes(b.subrange(132, 140)),
        region_b_len: spec_u64_from_le_bytes(b.subrange(140, 148)),
    })
    &&& h.padding_seed@ == b.subrange(148, 180)
    &&& h.header_hmac@ == b.subrange(224, 256)
}

/// Whether two headers agree on every field but the HMAC.
pub open spec fn same_but_hmac(a: VaultHeader, b: VaultHeader) -> bool {
    &&& a.vault_id == b.vault_id
    &&& a.created_at == b.created_at
    &&& a.cipher == b.cipher
    &&& a.argon2_params == b.argon2_params
    &&& a.argon2_salt == b.argon2_salt
    &&& a.chacha20_nonce_base == b.chacha20_nonce_base
    &&& a.write_counter == b.write_counter
    &&& a.regions == b.regions
    &&& a.padding_seed == b.padding_seed
}

/// The HMAC of a header's binary form under a key.
pub open spec fn header_tag(key: Seq<u8>, h: VaultHeader) -> Seq<u8> {
    hmac_sha256_tag(key, header_prefix(h))
}

/// Whether bytes `i` of a header image is one of the zero-filled reserved
/// or padding bytes (33..48, 77..84, 180..224).
pub open spec fn is_filler_offset(i: int) -> bool {
    (33 <= i < 48) || (77 <= i < 84) || (180 <= i < 224)
}

proof fn lemma_le_lengths()
    ensures
        forall|x: u64| #[trigger] spec_u64_to_le_bytes(x).len() == 8,
        forall|x: u32| #[trigger] spec_u32_to_le_bytes(x).len() == 4,
        forall|x: u64| spec_u64_from_le_bytes(#[trigger] spec_u64_to_le_bytes(x)) == x,
        forall|x: u32| spec_u32_from_le_bytes(#[trigger] spec_u32_to_le_bytes(x)) == x,
{
    vstd::bytes::lemma_auto_spec_u64_to_from_le_bytes();
    vstd::bytes::lemma_auto_spec_u32_to_from_le_bytes();
    assert forall|x: u32| spec_u32_from_le_bytes(#[trigger] spec_u32_to_le_bytes(x)) == x by {
        assert(spec_u32_to_le_bytes(x).len() == 4);
    }
}

/// The prefix is 224 bytes long and the image 256; each field sits at its
/// offset.
pub proof fn lemma_image_layout(h: VaultHeader)
    ensures
        header_prefix(h).len() == 224,
        header_image(h).len() == 256,
        header_image(h).subrange(0, 224) == header_prefix(h),
        header_image(h).subrange(0, 8) == HEADER_MAGIC@,
        header_image(h).subrange(8, 24) == h.vault_id@,
        header_image(h).subrange(24, 32) == spec_u64_to_le_bytes(h.created_at),
        header_image(h)[32] == h.cipher.header_byte(),
        header_image(h)[48] == KDF_ARGON2ID,
        header_image(h).subrange(49, 53) == spec_u32_to_le_bytes(h.argon2_params.t_cost),
        header_image(h).subrange(53, 57) == spec_u32_to_le_bytes(h.argon2_params.m_cost),
        header_image(h).subrange(57, 61) == spec_u32_to_le_bytes(h.argon2_params.p_cost),
        header_image(h).subrange(61, 77) == h.argon2_salt@,
        header_image(h).subrange(84, 108) == h.chacha20_nonce_base@,
        header_image(h).subrange(108, 116) == spec_u64_to_le_bytes(h.write_counter),
        header_image(h).subrange(116, 124) == spec_u64_to_le_bytes(h.regions.region_a_offset),
        header_image(h).subrange(124, 132) == spec_u64_to_le_bytes(h.regions.region_a_len),
        header_image(h).subrange(132, 140) == spec_u64_to_le_bytes(h.regions.region_b_offset),
        header_image(h).subrange(140, 148) == spec_u64_to_le_bytes(h.regions.region_b_len),
        header_image(h).subrange(148, 180) == h.padding_seed@,
        header_image(h).subrange(224, 256) == h.header_hmac@,
        forall|i: int| #![trigger header_image(h)[i]] 0 <= i < 256 && is_filler_offset(i) ==> header_image(h)[i] == 0u8,
{
    lemma_le_lengths();
    let p = header_prefix(h);
    let s = header_image(h);
    let p1 = HEADER_MAGIC@ + h.vault_id@;
    let p2 = p1 + spec_u64_to_le_bytes(h.created_at);
    let p3 = p2 + seq![h.cipher.header_byte()];
    let p4 = p3 + zeros(15);
    let p5 = p4 + seq![KDF_ARGON2ID];
    let p6 = p5 + spec_u32_to_le_bytes(h.argon2_params.t_cost);
    let p7 = p6 + spec_u32_to_le_bytes(h.argon2_params.m_cost);
    let p8 = p7 + spec_u32_to_le_bytes(h.argon2_params.p_cost);
    let p9 = p8 + h.argon2_salt@;
    let p10 = p9 + zeros(7);
    let p11 = p10 + h.chacha20_nonce_base@;
    let p12 = p11 + spec_u64_to_le_bytes(h.write_counter);
    let p13 = p12 + spec_u64_to_le_bytes(h.regions.region_a_offset);
    let p14 = p13 + spec_u64_to_le_bytes(h.regions.region_a_len);
    let p15 = p14 + spec_u64_to_le_bytes(h.regions.region_b_offset);
    let p16 = p15 + spec_u64_to_le_bytes(h.regions.region_b_len);
    let p17 = p16 + h.padding_seed@;
    assert(p == p17 + zeros(44));
    assert(p.len() == 224);
    assert(s.subrange(0, 224) =~= p);
    assert(s.subrange(224, 256) =~= h.header_hmac@);
    assert(s.subrange(0, 8) =~= HEADER_MAGIC@);
    assert(s.subrange(8, 24) =~= h.vault_id@);
    assert(s.subrange(24, 32) =~= spec_u64_to_le_bytes(h.created_at));
    assert(s.subrange(49, 53) =~= spec_u32_to_le_bytes(h.argon2_params.t_cost));
    assert(s.subrange(53, 57) =~= spec_u32_to_le_bytes(h.argon2_params.m_cost));
    assert(s.subrange(57, 61) =~= spec_u32_to_le_bytes(h.argon2_params.p_cost));
    assert(s.subrange(61, 77) =~= h.argon2_salt@);
    assert(s.subrange(84, 108) =~= h.chacha20_nonce_base@);
    assert(s.subrange(108, 116) =~= spec_u64_to_le_bytes(h.write_counter));
    assert(s.subrange(116, 124) =~= spec_u64_to_le_bytes(h.regions.region_a_offset));
    assert(s.subrange(124, 132) =~= spec_u64_to_le_bytes(h.regions.region_a_len));
    assert(s.subrange(132, 140) =~= spec_u64_to_le_bytes(h.regions.region_b_offset));
    assert(s.subrange(140, 148) =~= spec_u64_to_le_bytes(h.regions.region_b_len));
    assert(s.subrange(148, 180) =~= h.padding_seed@);
}

/// Appends a byte slice.
fn append_bytes(v: &mut Vec<u8>, s: &[u8])
    ensures
        final(v)@ == old(v)@ + s@,
{
    v.extend_from_slice(s);
    assert(v@ =~= old(v)@ + s@);
}

/// Copies `len` bytes starting at `from` into an array.
pub(crate) fn copy_array<const N: usize>(src: &[u8], from: usize) -> (a: [u8; N])
    requires
        from + N <= src@.len(),
    ensures
        a@ == src@.subrange(from as int, from + N),
{
    let mut a: [u8; N] = vstd::array::array_fill_for_copy_types(0u8);
    let n = src.len();
    let mut i: usize = 0;
    while i < N
        invariant
            i <= N,
            n == src@.len(),
            from + N <= n,
            forall|j: int| 0 <= j < i ==> a@[j] == src@[from + j],
        decreases N - i,
    {
        a[i] = src[from + i];
        i = i + 1;
    }
    assert(a@ =~= src@.subrange(from as int, from + N));
    a
}

/// Whether two byte slices hold the same bytes.
fn same_bytes(a: &[u8], b: &[u8]) -> (eq: bool)
    ensures
        eq == (a@ == b@),
{
    if a.len() != b.len() {
        return false;
    }
    let mut i: usize = 0;
    while i < a.len()
        invariant
            a@.len() == b@.len(),
            i <= a@.len(),
            forall|j: int| 0 <= j < i ==> a@[j] == b@[j],
        decreases a@.len() - i,
    {
        if a[i] != b[i] {
            return false;
        }
        i = i + 1;
    }
    assert(a@ =~= b@);
    true
}

impl VaultHeader {
    /// A fresh header for a new vault: random vault id, salt, nonce base and
    /// padding seed from the operating system, the current time, the given
    /// cipher and parameters, write counter zero, zeroed regions and a zero
    /// HMAC (computed later, once the key is known).
    pub fn new(cipher: CipherChoice, argon2_params: Argon2Params) -> (r: Result<VaultHeader, HeaderError>)
        ensures
            r matches Ok(h) ==> {
                &&& h.cipher == cipher
                &&& h.argon2_params == argon2_params
                &&& h.write_counter == 0
                &&& h.regions == RegionLayout { region_a_offset: 0, region_a_len: 0, region_b_offset: 0, region_b_len: 0 }
                &&& h.header_hmac@ == zeros(32)
            },
            r matches Err(e) ==> (e matches HeaderError::CryptoError(c) && c is RngFailed) || e is TimeError,
    {
        let vault_id = match generate_random_bytes::<16>() {
            Ok(a) => a,
            Err(e) => { return Err(HeaderError::from(e)); },
        };
        let argon2_salt = match generate_random_bytes::<16>() {
            Ok(a) => a,
            Err(e) => { return Err(HeaderError::from(e)); },
        };
        let chacha20_nonce_base = match generate_random_bytes::<24>() {
            Ok(a) => a,
            Err(e) => { return Err(HeaderError::from(e)); },
        };
        let padding_seed = match generate_random_bytes::<32>() {
            Ok(a) => a,
            Err(e) => { return Err(HeaderError::from(e)); },
        };
        let created_at = match unix_time_now() {
            Some(t) => t,
            None => { return Err(HeaderError::TimeError); },
        };
        let header_hmac = [0u8; 32];
        assert(header_hmac@ =~= zeros(32));
        Ok(VaultHeader {
            vault_id,
            created_at,
            cipher,
            argon2_params,
            argon2_salt,
            chacha20_nonce_base,
            write_counter: 0,
            regions: RegionLayout::zeroed(),
            padding_seed,
            header_hmac,
        })
    }

    /// Replaces the region layout.
    pub fn set_regions(&mut self, regions: RegionLayout)
        ensures
            final(self).regions == regions,
            same_but_hmac(*final(self), VaultHeader { regions, ..*old(self) }),
            final(self).header_hmac == old(self).header_hmac,
    {
        self.regions = regions;
    }

    /// The 256-byte binary form of the header (always succeeds).
    pub fn serialize(&self) -> (r: Result<[u8; 256], HeaderError>)
        ensures
            r matches Ok(b) && b@ == header_image(*self),
    {
        proof { lemma_le_lengths(); lemma_image_layout(*self); }
        let mut v: Vec<u8> = Vec::new();
        append_bytes(&mut v, HEADER_MAGIC.as_slice());
        append_bytes(&mut v, self.vault_id.as_slice());
        let created = u64_to_le_bytes(self.created_at);
        append_bytes(&mut v, created.as_slice());
        v.push(self.cipher.to_header_byte());
        append_bytes(&mut v, [0u8; 15].as_slice());
        v.push(KDF_ARGON2ID);
        let t = u32_to_le_bytes(self.argon2_params.t_cost);
        append_bytes(&mut v, t.as_slice());
        let m = u32_to_le_bytes(self.argon2_params.m_cost);
        append_bytes(&mut v, m.as_slice());
        let p = u32_to_le_bytes(self.argon2_params.p_cost);
        append_bytes(&mut v, p.as_slice());
        append_bytes(&mut v, self.argon2_salt.as_slice());
        append_bytes(&mut v, [0u8; 7].as_slice());
        append_bytes(&mut v, self.chacha20_nonce_base.as_slice());
        let wc = u64_to_le_bytes(self.write_counter);
        append_bytes(&mut v, wc.as_slice());
        let ao = u64_to_le_bytes(self.regions.region_a_offset);
        append_bytes(&mut v, ao.as_slice());
        let al = u64_to_le_bytes(self.regions.region_a_len);
        append_bytes(&mut v, al.as_slice());
        let bo = u64_to_le_bytes(self.regions.region_b_offset);
        append_bytes(&mut v, bo.as_slice());
        let bl = u64_to_le_bytes(self.regions.region_b_len);
        append_bytes(&mut v, bl.as_slice());
        append_bytes(&mut v, self.padding_seed.as_slice());
        append_bytes(&mut v, [0u8; 44].as_slice());
        append_bytes(&mut v, self.header_hmac.as_slice());
        assert(v@ =~= header_image(*self));
        let out: [u8; 256] = copy_array(v.as_slice(), 0);
        assert(out@ =~= header_image(*self));
        Ok(out)
    }

    /// Parses a header, refusing in this order: input not 256 bytes long,
    /// wrong magic bytes, unknown cipher byte, KDF byte other than Argon2id,
    /// Argon2id parameters below the minimums.  The HMAC is not checked here.
    pub fn deserialize(bytes: &[u8]) -> (r: Result<VaultHeader, HeaderError>)
        ensures
            r matches Err(e) ==> header_fault(bytes@) == Some(e),
            r matches Ok(h) ==> header_fault(bytes@) is None && decodes_to(bytes@, h),
            header_fault(bytes@) is None ==> r is Ok,
    {
        if bytes.len() != HEADER_SIZE {
            return Err(HeaderError::InvalidLength { got: bytes.len() });
        }
        if !same_bytes(vstd::slice::slice_subrange(bytes, 0, 8), HEADER_MAGIC.as_slice()) {
            return Err(HeaderError::InvalidMagic);
        }
        let vault_id: [u8; 16] = copy_array(bytes, 8);
        let created_at = u64_from_le_bytes(vstd::slice::slice_subrange(bytes, 24, 32));
        let cipher_byte = bytes[32];
        let cipher = match CipherChoice::from_header_byte(cipher_byte) {
            Some(c) => c,
            None => { return Err(HeaderError::UnknownCipher { byte: cipher_byte }); },
        };
        let kdf_byte = bytes[48];
        if kdf_byte != KDF_ARGON2ID {
            return Err(HeaderError::UnknownKdf { byte: kdf_byte });
        }
        let argon2_t = u32_from_le_bytes(vstd::slice::slice_subrange(bytes, 49, 53));
        let argon2_m = u32_from_le_bytes(vstd::slice::slice_subrange(bytes, 53, 57));
        let argon2_p = u32_from_le_bytes(vstd::slice::slice_subrange(bytes, 57, 61));
        let argon2_params = match Argon2Params::new(argon2_t, argon2_m, argon2_p) {
            Ok(p) => p,
            Err(e) => { return Err(HeaderError::ParamsBelowMinimum(e)); },
        };
        let argon2_salt: [u8; 16] = copy_array(bytes, 61);
        let chacha20_nonce_base: [u8; 24] = copy_array(bytes, 84);
        let write_counter = u64_from_le_bytes(vstd::slice::slice_subrange(bytes, 108, 116));
        let regions = RegionLayout {
            region_a_offset: u64_from_le_bytes(vstd::slice::slice_subrange(bytes, 116, 124)),
            region_a_len: u64_from_le_bytes(vstd::slice::slice_subrange(bytes, 124, 132)),
            region_b_offset: u64_from_le_bytes(vstd::slice::slice_subrange(bytes, 132, 140)),
            region_b_len: u64_from_le_bytes(vstd::slice::slice_subrange(bytes, 140, 148)),
        };
        let padding_seed: [u8; 32] = copy_array(bytes, 148);
        let header_hmac: [u8; 32] = copy_array(bytes, 224);
        Ok(VaultHeader {
            vault_id,
            created_at,
            cipher,
            argon2_params,
            argon2_salt,
            chacha20_nonce_base,
            write_counter,
            regions,
            padding_seed,
            header_hmac,
        })
    }

    /// HMAC-SHA256 over the first 224 bytes of the serialized header.
    fn compute_hmac(&self, header_auth_key: &SecretBytes) -> (r: Result<[u8; 32], HeaderError>)
        ensures
            r matches Ok(t) && t@ == header_tag(header_auth_key@, *self),
    {
        proof { lemma_image_layout(*self); }
        let serialized = match self.serialize() {
            Ok(b) => b,
            Err(e) => { return Err(e); },
        };
        let authenticated = vstd::slice::slice_subrange(serialized.as_slice(), 0, HMAC_OFFSET);
        Ok(hmac_sha256(header_auth_key.expose_secret(), authenticated))
    }

    /// Computes the header's HMAC under the key and stores it; no other field
    /// changes.
    pub fn compute_and_store_hmac(&mut self, header_auth_key: &SecretBytes) -> (r: Result<(), HeaderError>)
        ensures
            r is Ok,
            same_but_hmac(*final(self), *old(self)),
            final(self).header_hmac@ == header_tag(header_auth_key@, *old(self)),
    {
        let hmac = self.compute_hmac(header_auth_key)?;
        self.header_hmac = hmac;
        Ok(())
    }

    /// Checks the stored HMAC against the HMAC of the raw on-disk bytes
    /// `0..224`, so that tampering with padding bytes is caught too.
    /// Comparison is constant-time.
    pub fn verify_hmac_raw(&self, raw_header_bytes: &[u8; 256], header_auth_key: &SecretBytes) -> (r: Result<(), HeaderError>)
        ensures
            r is Ok <==> hmac_sha256_tag(header_auth_key@, raw_header_bytes@.subrange(0, 224)) == self.header_hmac@,
            r matches Err(e) ==> e is HmacVerificationFailed,
    {
        let authenticated = vstd::slice::slice_subrange(raw_header_bytes.as_slice(), 0, HMAC_OFFSET);
        let computed = hmac_sha256(header_auth_key.expose_secret(), authenticated);
        if ct_eq_bytes(computed.as_slice(), self.header_hmac.as_slice()) {
            Ok(())
        } else {
            Err(HeaderError::HmacVerificationFailed)
        }
    }

    /// Checks the stored HMAC against the HMAC of the re-serialized header.
    /// Comparison is constant-time.
    pub fn verify_hmac(&self, header_auth_key: &SecretBytes) -> (r: Result<(), HeaderError>)
        ensures
            r is Ok <==> header_tag(header_auth_key@, *self) == self.header_hmac@,
            r matches Err(e) ==> e is HmacVerificationFailed,
    {
        let computed = match self.compute_hmac(header_auth_key) {
            Ok(t) => t,
            Err(e) => { return Err(e); },
        };
        if ct_eq_bytes(computed.as_slice(), self.header_hmac.as_slice()) {
            Ok(())
        } else {
            Err(HeaderError::HmacVerificationFailed)
        }
    }

    /// Increments the write counter and returns its new value; at `u64::MAX`
    /// it refuses and leaves the header unchanged.
    pub fn increment_write_counter(&mut self) -> (r: Result<u64, HeaderError>)
        ensures
            old(self).write_counter == u64::MAX ==> r == Err::<u64, HeaderError>(HeaderError::WriteCounterOverflow)
                && *final(self) == *old(self),
            old(self).write_counter < u64::MAX ==> r == Ok::<u64, HeaderError>((old(self).write_counter + 1) as u64)
                && final(self).write_counter == old(self).write_counter + 1
                && final(self).header_hmac == old(self).header_hmac
                && same_but_hmac(*final(self), VaultHeader { write_counter: final(self).write_counter, ..*old(self) }),
    {
        if self.write_counter == u64::MAX {
            return Err(HeaderError::WriteCounterOverflow);
        }
        self.write_counter = self.write_counter + 1;
        Ok(self.write_counter)
    }
}

/// Serializing a header whose Argon2id parameters meet the minimums and
/// parsing the bytes back gives the same header: the parse passes every
/// check, and the only header the bytes decode to is the original.
pub proof fn law_header_round_trip(h: VaultHeader)
    requires
        h.argon2_params.meets_minimums(),
    ensures
        header_fault(header_image(h)) is None,
        decodes_to(header_image(h), h),
        forall|g: VaultHeader| decodes_to(header_image(h), g) ==> g == h,
{
    lemma_le_lengths();
    lemma_image_layout(h);
    let b = header_image(h);
    assert(decodes_to(b, h));
    assert forall|g: VaultHeader| decodes_to(header_image(h), g) implies g == h by {
        assert(g.vault_id@ =~= h.vault_id@);
        assert(g.argon2_salt@ =~= h.argon2_salt@);
        assert(g.chacha20_nonce_base@ =~= h.chacha20_nonce_base@);
        assert(g.padding_seed@ =~= h.padding_seed@);
        assert(g.header_hmac@ =~= h.header_hmac@);
        assert(g.vault_id == h.vault_id);
        assert(g.argon2_salt == h.argon2_salt);
        assert(g.chacha20_nonce_base == h.chacha20_nonce_base);
        assert(g.padding_seed == h.padding_seed);
        assert(g.header_hmac == h.header_hmac);
    }
}

/// A header parsed from bytes serializes back to the same bytes, except
/// that the reserved and padding bytes (33..48, 77..84, 180..224) come out
/// as zeros; so bytes whose filler is already zero serialize back exactly.
pub proof fn law_parse_then_serialize(b: Seq<u8>, h: VaultHeader)
    requires
        header_fault(b) is None,
        decodes_to(b, h),
    ensures
        forall|i: int| 0 <= i < 256 && !is_filler_offset(i) ==> #[trigger] header_image(h)[i] == b[i],
        forall|i: int| 0 <= i < 256 && is_filler_offset(i) ==> #[trigger] header_image(h)[i] == 0u8,
        (forall|i: int| 0 <= i < 256 && is_filler_offset(i) ==> #[trigger] b[i] == 0u8) ==> header_image(h) == b,
{
    lemma_le_lengths();
    lemma_image_layout(h);
    vstd::bytes::lemma_auto_spec_u64_to_from_le_bytes();
    vstd::bytes::lemma_auto_spec_u32_to_from_le_bytes();
    let s = header_image(h);
    assert(spec_u64_to_le_bytes(spec_u64_from_le_bytes(b.subrange(24, 32))) == b.subrange(24, 32));
    assert(spec_u32_to_le_bytes(spec_u32_from_le_bytes(b.subrange(49, 53))) == b.subrange(49, 53));
    assert(spec_u32_to_le_bytes(spec_u32_from_le_bytes(b.subrange(53, 57))) == b.subrange(53, 57));
    assert(spec_u32_to_le_bytes(spec_u32_from_le_bytes(b.subrange(57, 61))) == b.subrange(57, 61));
    assert(spec_u64_to_le_bytes(spec_u64_from_le_bytes(b.subrange(108, 116))) == b.subrange(108, 116));
    assert(spec_u64_to_le_bytes(spec_u64_from_le_bytes(b.subrange(116, 124))) == b.subrange(116, 124));
    assert(spec_u64_to_le_bytes(spec_u64_from_le_bytes(b.subrange(124, 132))) == b.subrange(124, 132));
    assert(spec_u64_to_le_bytes(spec_u64_from_le_bytes(b.subrange(132, 140))) == b.subrange(132, 140));
    assert(spec_u64_to_le_bytes(spec_u64_from_le_bytes(b.subrange(140, 148))) == b.subrange(140, 148));
    assert forall|i: int| 0 <= i < 256 && !is_filler_offset(i) implies #[trigger] s[i] == b[i] by {
        if i < 8 {
            assert(s.subrange(0, 8)[i] == b.subrange(0, 8)[i]);
        } else if i < 24 {
            assert(s.subrange(8, 24)[i - 8] == b.subrange(8, 24)[i - 8]);
        } else if i < 32 {
            assert(s.subrange(24, 32)[i - 24] == b.subrange(24, 32)[i - 24]);
        } else if i == 32 {
            assert(CipherChoice::from_byte(b[32]) == Some(h.cipher));
        } else if i == 48 {
        } else if i < 53 {
            assert(s.subrange(49, 53)[i - 49] == b.subrange(49, 53)[i - 49]);
        } else if i < 57 {
            assert(s.subrange(53, 57)[i - 53] == b.subrange(53, 57)[i - 53]);
        } else if i < 61 {
            assert(s.subrange(57, 61)[i - 57] == b.subrange(57, 61)[i - 57]);
        } else if i < 77 {
            assert(s.subrange(61, 77)[i - 61] == b.subrange(61, 77)[i - 61]);
        } else if i < 108 {
            assert(s.subrange(84, 108)[i - 84] == b.subrange(84, 108)[i - 84]);
        } else if i < 116 {
            assert(s.subrange(108, 116)[i - 108] == b.subrange(108, 116)[i - 108]);
        } else if i < 124 {
            assert(s.subrange(116, 124)[i - 116] == b.subrange(116, 124)[i - 116]);
        } else if i < 132 {
            assert(s.subrange(124, 132)[i - 124] == b.subrange(124, 132)[i - 124]);
        } else if i < 140 {
            assert(s.subrange(132, 140)[i - 132] == b.subrange(132, 140)[i - 132]);
        } else if i < 148 {
            assert(s.subrange(140, 148)[i - 140] == b.subrange(140, 148)[i - 140]);
        } else if i < 180 {
            assert(s.subrange(148, 180)[i - 148] == b.subrange(148, 180)[i - 148]);
        } else {
            assert(s.subrange(224, 256)[i - 224] == b.subrange(224, 256)[i - 224]);
        }
    }
    if forall|i: int| 0 <= i < 256 && is_filler_offset(i) ==> #[trigger] b[i] == 0u8 {
        assert(s =~= b);
    }
}

/// After `compute_and_store_hmac` with a key, verification with the same
/// key succeeds, both on the re-serialized header and on its serialized
/// bytes.
pub proof fn law_stored_hmac_verifies(before: VaultHeader, after: VaultHeader, key: Seq<u8>)
    requires
        same_but_hmac(after, before),
        after.header_hmac@ == header_tag(key, before),
    ensures
        header_tag(key, after) == after.header_hmac@,
        hmac_sha256_tag(key, header_image(after).subrange(0, 224)) == after.header_hmac@,
{
    lemma_image_layout(after);
    assert(header_prefix(after) == header_prefix(before));
}

} // verus!
