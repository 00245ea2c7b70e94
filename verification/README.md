# phantom_core

The trusted core of an encrypted file vault, written in Verus.  Every
function in `src/` carries a contract; Verus proves all of them except the
trusted items in `src/primitives.rs`, whose contracts state what the outside
crates' sources and documentation show and are believed without proof.

- `src/memory.rs` — `SecretBytes`, a zeroed-on-drop holder for keys and
  passwords, with constant-time comparison.
- `src/crypto.rs` — Argon2id master keys, HKDF-SHA256 subkeys, AES-256-GCM-SIV
  and ChaCha20-Poly1305 encryption; every decryption of an encryption's output
  gives the plaintext back.
- `src/header.rs` — the 256-byte vault header: layout, parsing checks,
  serialization (proved to round-trip) and its HMAC.
- `src/hmac.rs` — HMAC-SHA256 tags and the chained audit log.
- `src/shamir.rs` — Shamir sharing of the master key; any `k` of `n` shares
  rebuild it, and every split checks itself.
- `src/input.rs` — password checks and confirmation.
- `src/vault.rs` — creating and unlocking vaults and the session store; a
  vault created with a password unlocks with it and yields the same data key.
- `src/primitives.rs` — the trusted items: each call into an outside crate,
  with the contract that crate's source and documentation support.
- `src/text.rs` — decimal and hexadecimal rendering for messages.

`app/` is the Python extension around the library: terminal input,
the calls that lock and unlock memory pages (their outcomes are handed to
the library), the process-wide session store and error conversion.
