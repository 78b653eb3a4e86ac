[package]
name = "emvault_securosys"
version = "0.1.0"
edition = "2021"
publish = false

[dependencies]
base64 = "=0.22.1"
bitcoin = "=0.32.102"
cryptoki = "=0.12.1"
cryptoki-sys = "=0.5.0"
dotenvy = "=0.15.7"
emvault-pkcs11 = "=0.10.0"
libloading = "=0.8.9"
log = "=0.4.35"
reqwest = { version = "=0.12.28", default-features = false, features = ["blocking", "json", "rustls-tls"] }
secrecy = "=0.10.3"
serde_json = "=1.0.154"
thiserror = "=2.0.21"
