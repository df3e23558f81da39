[package]
name = "scryptenc"
version = "0.9.10"
edition = "2021"
publish = false

[dependencies]
aes = "0.8"
anyhow = "1"
byte-unit = "5"
clap = { version = "4", features = ["derive"] }
clap_complete = "4"
clap_complete_nushell = "4"
ctr = "0.9"
fraction = "0.15"
hmac = "0.12"
jiff = "0.2"
rand = "0.8"
scrypt = { version = "0.11", default-features = false }
serde = { version = "1", features = ["derive"] }
serde_json = "1"
sha2 = "0.10"
wasm-bindgen = "0.2"
