[package]
name = "actnet"
version = "0.1.0"
edition = "2021"
publish = false

[dependencies]
aes-gcm = "=0.10.3"
base32 = "=0.5.1"
base64 = "=0.22.1"
bs58 = "=0.5.1"
hkdf = "=0.12.4"
hmac = "=0.12.1"
p256 = { version = "=0.13.2", features = ["ecdsa"] }
rand = "=0.9.5"
sha2 = "=0.10.9"
uuid = "1"
serde = { version = "1", features = ["derive"] }
serde_json = "1"
serde_ipld_dagcbor = "=0.6.4"
prost = "=0.13.5"
thiserror = "2"
