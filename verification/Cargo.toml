[package]
name = "rsweb_auth"
version = "0.1.0"
edition = "2021"
publish = false

[dependencies]
base64 = "=0.22.1"
nacl = "=0.5.3"
rand = "=0.8.8"
reqwest = { version = "=0.12.28", default-features = false, features = ["blocking", "rustls-tls"] }
headers = "=0.4.2"
rsa = { version = "=0.9.10", features = ["sha2"] }
sha2 = "=0.10.9"

[dev-dependencies]
serde_json = "=1.0.151"
