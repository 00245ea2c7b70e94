[package]
name = "phantom_core"
version = "1.0.0"
edition = "2021"
publish = false

[dependencies]
aes-gcm-siv = "0.11"
argon2 = "0.5"
chacha20poly1305 = "0.10"
getrandom = "0.2"
hkdf = "0.12"
hmac = "0.12"
sha2 = "0.10"
sharks = "0.5"
subtle = "2"
zeroize = "1"
rpassword = "7"
libc = "0.2"
pyo3 = "0.22"
winapi = { version = "0.3", features = ["memoryapi", "errhandlingapi"] }
