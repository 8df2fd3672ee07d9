[package]
name = "near_forms"
version = "0.1.0"
edition = "2021"
publish = false

[dependencies]
libsecp256k1 = "=0.7.2"
sha2 = "=0.10.9"
hkdf = "=0.12.4"
chacha20poly1305 = "=0.10.1"
hex = "=0.4.3"
serde_json = "=1.0.151"
serde = { version = "=1.0.229", features = ["derive"] }
outlayer = "=0.2.0"
wasi-http-client = "=0.2.1"
