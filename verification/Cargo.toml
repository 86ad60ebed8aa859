[package]
name = "mothrbox"
version = "0.1.0"
edition = "2021"
publish = false

[dependencies]
aes = "=0.8.4"
aes-gcm = "=0.10.3"
argon2 = "=0.5.3"
base64 = "=0.22.1"
chacha20poly1305 = "=0.10.1"
ctr = "=0.9.2"
getrandom = "=0.2.17"
hex = "=0.4.3"
hkdf = "=0.12.4"
hmac = "=0.12.1"
p256 = { version = "=0.13.2", features = ["ecdh"] }
rand = "=0.8.8"
sha2 = "=0.10.9"
zeroize = "=1.9.1"
clap = { version = "=4.6.7", features = ["derive"] }
serde = { version = "=1.0.229", features = ["derive"] }
serde_json = "=1.0.154"
actix-web = { version = "=4.18.1", default-features = false, features = ["macros"] }
env_logger = "=0.11.11"
log = "=0.4.34"
uuid = { version = "=1.29.0", features = ["v4"] }
wasm-bindgen = "=0.2.129"
