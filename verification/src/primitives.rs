//! The library's boundary with its outside crates and with the operating
//! system: every call into `zeroize`, `subtle`, `getrandom`, `argon2`, `hkdf`,
//! `hmac`/`sha2`, `aes-gcm-siv`, `chacha20poly1305` and `sharks` stands here,
//! behind a small trusted item whose contract states what the crate's source
//! and documentation show.  Everything built on top of these is verified.
use vstd::prelude::*;

use aes_gcm_siv::aead::{Aead, KeyInit, Payload};
use hmac::Mac;
use subtle::ConstantTimeEq;
use zeroize::Zeroize;

verus! {

// ---------------------------------------------------------------------------
// zeroize
// ---------------------------------------------------------------------------

/// A byte buffer held in `zeroize::Zeroizing<Vec<u8>>`, which overwrites the
/// bytes with zeros when the buffer is dropped.  Verus cannot declare
/// `Zeroizing` itself (its parameter is bounded by the outside trait
/// `Zeroize`), so the buffer is kept in this opaque struct and reached only
/// through the trusted methods below.
#[verifier::external_body]
pub struct ZeroizingBuffer {
    inner: zeroize::Zeroizing<Vec<u8>>,
}

/// The bytes that a `ZeroizingBuffer` currently holds.
pub uninterp spec fn zeroizing_contents(b: ZeroizingBuffer) -> Seq<u8>;

impl ZeroizingBuffer {
    /// Calls `zeroize::Zeroizing::new`, which moves the vector into the
    /// wrapper without copying it; the buffer then holds exactly `v`'s bytes.
    #[verifier::external_body]
    pub(crate) fn new(v: Vec<u8>) -> (b: ZeroizingBuffer)
        ensures
            zeroizing_contents(b) == v@,
    {
        ZeroizingBuffer { inner: zeroize::Zeroizing::new(v) }
    }

    /// Reads the bytes through `Zeroizing`'s `Deref` to the inner vector.
    #[verifier::external_body]
    pub(crate) fn bytes(&self) -> (s: &[u8])
        ensures
            s@ == zeroizing_contents(*self),
    {
        self.inner.as_slice()
    }

    /// Calls `Zeroize::zeroize` on the bytes of the inner vector as a slice:
    /// zeroize's source overwrites every element with zero (volatile writes)
    /// and leaves the length unchanged.  It does not unwind: its only check,
    /// that the length fits in `isize`, holds for every slice.
    #[verifier::external_body]
    pub(crate) fn wipe(&mut self)
        ensures
            zeroizing_contents(*final(self)) == Seq::new(zeroizing_contents(*old(self)).len(), |i: int| 0u8),
        no_unwind
    {
        self.inner.as_mut_slice().zeroize();
    }
}

/// `Zeroize::zeroize` on a `Vec<u8>`: zeroize's source overwrites the
/// elements and the spare capacity with zeros, then clears the vector.
#[verifier::external_body]
pub(crate) fn wipe_vec(v: &mut Vec<u8>)
    ensures
        final(v)@ == Seq::<u8>::empty(),
{
    v.zeroize();
}

/// `Zeroize::zeroize` on the bytes of a vector taken as a slice: zeroize's
/// source overwrites every element with zero (volatile writes) and leaves
/// the length unchanged.
#[verifier::external_body]
pub(crate) fn wipe_vec_in_place(v: &mut Vec<u8>)
    ensures
        final(v)@ == Seq::new(old(v)@.len(), |i: int| 0u8),
{
    v.as_mut_slice().zeroize();
}

/// `Zeroize::zeroize` on a byte array: every element becomes zero (with
/// volatile writes that the compiler may not remove).
#[verifier::external_body]
pub(crate) fn wipe_array<const N: usize>(a: &mut [u8; N])
    ensures
        final(a)@ == Seq::new(N as nat, |i: int| 0u8),
{
    a.zeroize();
}

// ---------------------------------------------------------------------------
// subtle
// ---------------------------------------------------------------------------

/// `subtle::ConstantTimeEq::ct_eq` on byte slices, turned into a `bool`.
/// subtle's source returns a `Choice` of 0 when the lengths differ and
/// otherwise 1 exactly when every byte is equal.
#[verifier::external_body]
pub(crate) fn ct_eq_bytes(a: &[u8], b: &[u8]) -> (eq: bool)
    ensures
        eq == (a@ == b@),
{
    a.ct_eq(b).into()
}

// ---------------------------------------------------------------------------
// getrandom
// ---------------------------------------------------------------------------

/// `getrandom::getrandom` over the whole vector.  The bytes that come back
/// depend on the operating system's random source, so nothing is stated of
/// them beyond the length, which the call does not change.  The error is
/// handed back as the text of getrandom's `Error` display.
#[verifier::external_body]
pub(crate) fn os_random_fill(buf: &mut Vec<u8>) -> (r: Result<(), String>)
    ensures
        final(buf)@.len() == old(buf)@.len(),
{
    getrandom::getrandom(buf.as_mut_slice()).map_err(|e| e.to_string())
}

// ---------------------------------------------------------------------------
// argon2
// ---------------------------------------------------------------------------

/// What the argon2 crate's `Params::new` accepts for a 32-byte output:
/// at least 8 KiB of memory and at least 8 KiB per lane, at least one
/// iteration, and between 1 and 2^24 - 1 lanes.
pub open spec fn argon2_accepts(m_cost: u32, t_cost: u32, p_cost: u32) -> bool {
    &&& m_cost >= 8
    &&& m_cost >= 8 * p_cost
    &&& t_cost >= 1
    &&& p_cost >= 1
    &&& p_cost <= 0xFF_FFFF
}

/// The 32-byte Argon2id (version 0x13) output for a password, salt and the
/// three cost parameters.
pub uninterp spec fn argon2id_output(password: Seq<u8>, salt: Seq<u8>, m_cost: u32, t_cost: u32, p_cost: u32) -> Seq<u8>;

/// Which step of an Argon2id derivation refused, with the text of argon2's
/// error.
pub enum Argon2Fault {
    /// `Params::new` refused the cost parameters.
    Params(String),
    /// `hash_password_into` refused the inputs.
    Computation(String),
}

/// Runs Argon2id: `Params::new(m_cost, t_cost, p_cost, Some(32))`, then
/// `Argon2::new(Algorithm::Argon2id, Version::V0x13, ..)` and
/// `hash_password_into` into a 32-byte buffer.  From argon2's source:
/// `Params::new` refuses exactly the parameters outside `argon2_accepts`,
/// and `hash_password_into` refuses a password longer than 2^32 - 1 bytes or
/// a salt outside 8..=2^32 - 1 bytes (held to that range here by
/// `requires`).  Otherwise the output is the Argon2id value
/// of the inputs.  (`Params::new` computes `p_cost * 8`, which overflows for
/// larger `p_cost`; the allocation of `m_cost` KiB of working memory aborts
/// the process when the allocator refuses it, which is not stated.)
#[verifier::external_body]
pub(crate) fn argon2id_hash(password: &[u8], salt: &[u8], m_cost: u32, t_cost: u32, p_cost: u32) -> (r: Result<Vec<u8>, Argon2Fault>)
    requires
        p_cost <= 0x1FFF_FFFF,
        8 <= salt@.len() <= 0xFFFF_FFFF,
    ensures
        (r matches Err(f) && f is Params) <==> !argon2_accepts(m_cost, t_cost, p_cost),
        (r matches Err(f) && f is Computation) <==> (argon2_accepts(m_cost, t_cost, p_cost)
            && password@.len() > 0xFFFF_FFFF),
        r matches Ok(v) ==> v@ == argon2id_output(password@, salt@, m_cost, t_cost, p_cost) && v@.len() == 32,
{
    let params = argon2::Params::new(m_cost, t_cost, p_cost, Some(32))
        .map_err(|e| Argon2Fault::Params(e.to_string()))?;
    let hasher = argon2::Argon2::new(argon2::Algorithm::Argon2id, argon2::Version::V0x13, params);
    let mut out = vec![0u8; 32];
    hasher.hash_password_into(password, salt, &mut out).map_err(|e| Argon2Fault::Computation(e.to_string()))?;
    Ok(out)
}

// ---------------------------------------------------------------------------
// hkdf, hmac (SHA-256)
// ---------------------------------------------------------------------------

/// The first 32 bytes of HKDF-SHA256 output key material for a salt, input
/// key material and info string.
pub uninterp spec fn hkdf_sha256_okm(salt: Seq<u8>, ikm: Seq<u8>, info: Seq<u8>) -> Seq<u8>;

/// `Hkdf::<Sha256>::new(Some(salt), ikm)` followed by `expand(info, ..)` into
/// a 32-byte buffer.  hkdf's source refuses only outputs longer than
/// 255 * 32 bytes, so this expansion always succeeds.
#[verifier::external_body]
pub(crate) fn hkdf_sha256_expand(salt: &[u8], ikm: &[u8], info: &[u8]) -> (okm: Vec<u8>)
    ensures
        okm@ == hkdf_sha256_okm(salt@, ikm@, info@),
        okm@.len() == 32,
{
    let hk = hkdf::Hkdf::<sha2::Sha256>::new(Some(salt), ikm);
    let mut out = vec![0u8; 32];
    hk.expand(info, &mut out).expect("a 32-byte HKDF-SHA256 expansion is always accepted");
    out
}

/// The HMAC-SHA256 tag of `data` under `key`.
pub uninterp spec fn hmac_sha256_tag(key: Seq<u8>, data: Seq<u8>) -> Seq<u8>;

/// `Hmac::<Sha256>::new_from_slice(key)`, `update(data)`, `finalize()`.
/// hmac's source accepts keys of every length (longer keys are hashed), so
/// the computation always succeeds; the tag is 32 bytes.
#[verifier::external_body]
pub(crate) fn hmac_sha256(key: &[u8], data: &[u8]) -> (tag: [u8; 32])
    ensures
        tag@ == hmac_sha256_tag(key@, data@),
{
    let mut mac = <hmac::Hmac<sha2::Sha256> as Mac>::new_from_slice(key)
        .expect("HMAC accepts keys of every length");
    mac.update(data);
    mac.finalize().into_bytes().into()
}

// ---------------------------------------------------------------------------
// aes-gcm-siv, chacha20poly1305
// ---------------------------------------------------------------------------

/// AES-256-GCM-SIV ciphertext followed by its 16-byte tag.
pub uninterp spec fn aes_gcm_siv_sealed(key: Seq<u8>, nonce: Seq<u8>, aad: Seq<u8>, plaintext: Seq<u8>) -> Seq<u8>;

/// The AES-256-GCM-SIV plaintext of a ciphertext-with-tag, or `None` when
/// the tag does not authenticate it.
pub uninterp spec fn aes_gcm_siv_opened(key: Seq<u8>, nonce: Seq<u8>, aad: Seq<u8>, sealed: Seq<u8>) -> Option<Seq<u8>>;

/// The largest plaintext and associated-data lengths AES-GCM-SIV accepts
/// (2^36 bytes, `P_MAX` and `A_MAX` in aes-gcm-siv's source).
pub open spec fn aes_gcm_siv_limit() -> nat {
    0x10_0000_0000
}

/// `Aes256GcmSiv::new_from_slice(key)` and `Aead::encrypt(nonce, Payload)`.
/// From aes-gcm-siv's source: the call fails exactly when the plaintext or
/// the associated data is longer than 2^36 bytes; the output is the
/// ciphertext (as long as the plaintext) followed by a 16-byte tag.  As the
/// aead crate documents for every AEAD, decrypting the output with the same
/// key, nonce and associated data gives the plaintext back.
#[verifier::external_body]
pub(crate) fn aes_gcm_siv_seal(key: &[u8], nonce: &[u8], aad: &[u8], plaintext: &[u8]) -> (r: Option<Vec<u8>>)
    requires
        key@.len() == 32,
        nonce@.len() == 12,
    ensures
        r is Some <==> (plaintext@.len() <= aes_gcm_siv_limit() && aad@.len() <= aes_gcm_siv_limit()),
        r matches Some(c) ==> {
            &&& c@ == aes_gcm_siv_sealed(key@, nonce@, aad@, plaintext@)
            &&& c@.len() == plaintext@.len() + 16
            &&& aes_gcm_siv_opened(key@, nonce@, aad@, c@) == Some(plaintext@)
        },
{
    let cipher = aes_gcm_siv::Aes256GcmSiv::new_from_slice(key).ok()?;
    cipher.encrypt(aes_gcm_siv::Nonce::from_slice(nonce), Payload { msg: plaintext, aad }).ok()
}

/// `Aes256GcmSiv::new_from_slice(key)` and `Aead::decrypt(nonce, Payload)`:
/// the plaintext when the tag authenticates the ciphertext, `None` otherwise
/// (aes-gcm-siv's source also refuses inputs shorter than the 16-byte tag).
#[verifier::external_body]
pub(crate) fn aes_gcm_siv_open(key: &[u8], nonce: &[u8], aad: &[u8], sealed: &[u8]) -> (r: Option<Vec<u8>>)
    requires
        key@.len() == 32,
        nonce@.len() == 12,
    ensures
        r matches Some(p) ==> aes_gcm_siv_opened(key@, nonce@, aad@, sealed@) == Some(p@),
        r is None ==> aes_gcm_siv_opened(key@, nonce@, aad@, sealed@) is None,
        sealed@.len() < 16 ==> r is None,
{
    let cipher = aes_gcm_siv::Aes256GcmSiv::new_from_slice(key).ok()?;
    cipher.decrypt(aes_gcm_siv::Nonce::from_slice(nonce), Payload { msg: sealed, aad }).ok()
}

/// ChaCha20-Poly1305 ciphertext followed by its 16-byte tag.
pub uninterp spec fn chacha20poly1305_sealed(key: Seq<u8>, nonce: Seq<u8>, aad: Seq<u8>, plaintext: Seq<u8>) -> Seq<u8>;

/// The ChaCha20-Poly1305 plaintext of a ciphertext-with-tag, or `None` when
/// the tag does not authenticate it.
pub uninterp spec fn chacha20poly1305_opened(key: Seq<u8>, nonce: Seq<u8>, aad: Seq<u8>, sealed: Seq<u8>) -> Option<Seq<u8>>;

/// Whether ChaCha20-Poly1305 accepts a message of this length: fewer than
/// 2^32 - 1 blocks of 64 bytes (`MAX_BLOCKS` in chacha20poly1305's source).
pub open spec fn chacha20poly1305_accepts(len: nat) -> bool {
    len / 64 < 0xFFFF_FFFF
}

/// `ChaCha20Poly1305::new_from_slice(key)` and `Aead::encrypt(nonce,
/// Payload)`.  From chacha20poly1305's source: the call fails exactly when
/// the plaintext spans 2^32 - 1 or more 64-byte blocks; the output is the
/// ciphertext followed by a 16-byte tag.  As the aead crate documents,
/// decrypting the output with the same key, nonce and associated data gives
/// the plaintext back.
#[verifier::external_body]
pub(crate) fn chacha20poly1305_seal(key: &[u8], nonce: &[u8], aad: &[u8], plaintext: &[u8]) -> (r: Option<Vec<u8>>)
    requires
        key@.len() == 32,
        nonce@.len() == 12,
    ensures
        r is Some <==> chacha20poly1305_accepts(plaintext@.len()),
        r matches Some(c) ==> {
            &&& c@ == chacha20poly1305_sealed(key@, nonce@, aad@, plaintext@)
            &&& c@.len() == plaintext@.len() + 16
            &&& chacha20poly1305_opened(key@, nonce@, aad@, c@) == Some(plaintext@)
        },
{
    let cipher = chacha20poly1305::ChaCha20Poly1305::new_from_slice(key).ok()?;
    cipher.encrypt(chacha20poly1305::Nonce::from_slice(nonce), chacha20poly1305::aead::Payload { msg: plaintext, aad }).ok()
}

/// `ChaCha20Poly1305::new_from_slice(key)` and `Aead::decrypt(nonce,
/// Payload)`: the plaintext when the tag authenticates the ciphertext,
/// `None` otherwise (including inputs shorter than the 16-byte tag).
#[verifier::external_body]
pub(crate) fn chacha20poly1305_open(key: &[u8], nonce: &[u8], aad: &[u8], sealed: &[u8]) -> (r: Option<Vec<u8>>)
    requires
        key@.len() == 32,
        nonce@.len() == 12,
    ensures
        r matches Some(p) ==> chacha20poly1305_opened(key@, nonce@, aad@, sealed@) == Some(p@),
        r is None ==> chacha20poly1305_opened(key@, nonce@, aad@, sealed@) is None,
        sealed@.len() < 16 ==> r is None,
{
    let cipher = chacha20poly1305::ChaCha20Poly1305::new_from_slice(key).ok()?;
    cipher.decrypt(chacha20poly1305::Nonce::from_slice(nonce), chacha20poly1305::aead::Payload { msg: sealed, aad }).ok()
}

// ---------------------------------------------------------------------------
// sharks
// ---------------------------------------------------------------------------

/// The byte contents of each vector in a sequence of vectors.
pub open spec fn share_views(vs: Seq<Vec<u8>>) -> Seq<Seq<u8>> {
    vs.map_values(|v: Vec<u8>| v@)
}

/// The shares that a selection of indices picks, in the selection's order.
pub open spec fn select_shares(shares: Seq<Seq<u8>>, sel: Seq<int>) -> Seq<Seq<u8>> {
    sel.map_values(|i: int| shares[i])
}

/// A selection of at least `threshold` different indices below `n`.
pub open spec fn is_share_selection(sel: Seq<int>, n: nat, threshold: nat) -> bool {
    &&& sel.len() >= threshold
    &&& sel.no_duplicates()
    &&& forall|j: int| 0 <= j < sel.len() ==> 0 <= #[trigger] sel[j] < n
}

/// The number of different x-coordinates (first bytes) among some shares.
pub open spec fn distinct_share_points(shares: Seq<Seq<u8>>) -> nat {
    shares.map_values(|s: Seq<u8>| s[0]).to_set().len()
}

/// What `Share::try_from` and `Sharks::recover` accept together: at least one
/// share, every share at least 2 bytes long, all of one length, and at least
/// `threshold` different x-coordinates.
pub open spec fn sharks_recover_accepts(threshold: u8, shares: Seq<Seq<u8>>) -> bool {
    &&& shares.len() > 0
    &&& forall|i: int| 0 <= i < shares.len() ==> #[trigger] shares[i].len() >= 2
    &&& forall|i: int| 0 <= i < shares.len() ==> #[trigger] shares[i].len() == shares[0].len()
    &&& distinct_share_points(shares) >= threshold
}

/// The secret that Lagrange interpolation at zero over GF(256) gives for
/// some shares (each share: one x-coordinate byte, then one y byte per
/// secret byte).
pub uninterp spec fn sharks_interpolation(shares: Seq<Seq<u8>>) -> Seq<u8>;

/// Whether two byte strings of the same length differ at every position.
pub open spec fn differs_everywhere(a: Seq<u8>, b: Seq<u8>) -> bool {
    &&& a.len() == b.len()
    &&& forall|i: int| 0 <= i < a.len() ==> #[trigger] a[i] != b[i]
}

/// `Sharks(threshold).dealer(secret).take(count)`, each share turned into
/// bytes by `Vec::from(&Share)`.  The polynomial coefficients come from
/// `rand::thread_rng`, so the shares differ from call to call; what holds of
/// every outcome, from sharks' source and documentation: `count` shares
/// (the dealer yields the points x = 1..=255 in order), share `i` is the byte
/// `i + 1` followed by one byte per secret byte, and the interpolation of any
/// `threshold` or more different shares is the secret.  The dealing
/// threshold is exact: each secret byte lies on its own polynomial of degree
/// `threshold - 1` whose leading coefficient is drawn from 1..=255
/// (`random_polynomial`), so interpolating exactly `threshold - 1` different
/// shares (whose x-coordinates are non-zero) misses that byte by the leading
/// coefficient times the product of the x-coordinates, which is non-zero in
/// GF(256): the result differs from the secret in every byte.  (rand's
/// `thread_rng` panics when the operating system's random source cannot seed
/// it, which is not stated.)
#[verifier::external_body]
pub(crate) fn sharks_deal(secret: &[u8], threshold: u8, count: u8) -> (shares: Vec<Vec<u8>>)
    requires
        threshold >= 1,
    ensures
        shares@.len() == count,
        forall|i: int| 0 <= i < count ==> (#[trigger] shares@[i])@.len() == secret@.len() + 1
            && shares@[i]@[0] == i + 1,
        forall|sel: Seq<int>| is_share_selection(sel, count as nat, threshold as nat)
            ==> #[trigger] sharks_interpolation(select_shares(share_views(shares@), sel)) == secret@,
        threshold >= 2 ==> forall|sel: Seq<int>| is_share_selection(sel, count as nat, (threshold - 1) as nat)
            && sel.len() == threshold - 1
            ==> differs_everywhere(#[trigger] sharks_interpolation(select_shares(share_views(shares@), sel)), secret@),
{
    sharks::Sharks(threshold).dealer(secret).take(count as usize).map(|s| Vec::from(&s)).collect()
}

/// Parses each byte vector with `Share::try_from` and calls
/// `Sharks(threshold).recover`.  From sharks' source: `try_from` refuses a
/// share shorter than 2 bytes, `recover` refuses shares of different
/// lengths and fewer than `threshold` (or zero) different x-coordinates, and
/// otherwise returns the interpolation, one byte per y byte of a share.
#[verifier::external_body]
pub(crate) fn sharks_recover(threshold: u8, shares: &Vec<Vec<u8>>) -> (r: Option<Vec<u8>>)
    ensures
        r is Some <==> sharks_recover_accepts(threshold, share_views(shares@)),
        r matches Some(v) ==> v@ == sharks_interpolation(share_views(shares@))
            && v@.len() + 1 == shares@[0]@.len(),
{
    let parsed: Result<Vec<sharks::Share>, &str> =
        shares.iter().map(|s| sharks::Share::try_from(s.as_slice())).collect();
    sharks::Sharks(threshold).recover(&parsed.ok()?).ok()
}

// ---------------------------------------------------------------------------
// std
// ---------------------------------------------------------------------------

/// `String::push`: appends one character.
#[verifier::external_body]
pub(crate) fn push_char(s: &mut String, c: char)
    ensures
        final(s)@ == old(s)@.push(c),
{
    s.push(c);
}

/// `std::time::SystemTime`, a reading of the system clock.
#[verifier::external_type_specification]
#[verifier::external_body]
pub struct ExSystemTime(std::time::SystemTime);

/// `SystemTime::now()`: the clock's current reading.  It depends on the
/// clock, so nothing is stated of it.
#[verifier::external_body]
pub(crate) fn system_time_now() -> (t: std::time::SystemTime) {
    std::time::SystemTime::now()
}

/// `SystemTime::duration_since(UNIX_EPOCH)`, with its error (a reading
/// before the epoch) turned into `None`.  Nothing is stated of the duration.
#[verifier::external_body]
pub(crate) fn duration_since_unix_epoch(t: &std::time::SystemTime) -> (d: Option<std::time::Duration>) {
    t.duration_since(std::time::UNIX_EPOCH).ok()
}

/// `Duration::as_secs`: the whole seconds of a duration.  Nothing is stated
/// of the value.
#[verifier::external_body]
pub(crate) fn duration_whole_seconds(d: &std::time::Duration) -> (secs: u64) {
    d.as_secs()
}

/// Seconds since the Unix epoch by the system clock; `None` when the clock
/// reads a time before the epoch.
pub(crate) fn unix_time_now() -> (t: Option<u64>) {
    let now = system_time_now();
    match duration_since_unix_epoch(&now) {
        Some(d) => Some(duration_whole_seconds(&d)),
        None => None,
    }
}

} // verus!
