[package]
name = "karma"
version = "0.1.0"
edition = "2021"
publish = false

[dependencies]
aes-gcm = "=0.10.3"
argon2 = "=0.5.3"
base64 = "=0.22.1"
image = { version = "=0.25.10", default-features = false }
imageproc = { version = "=0.25.1", default-features = false }
ndarray = "0.16"
ort = { version = "2.0.0-rc.10", default-features = false, features = ["load-dynamic", "ndarray"] }
rand = "=0.8.8"
regex = "=1.13.1"
serde = { version = "=1.0.229", features = ["derive"] }
serde_json = "=1.0.154"
sha2 = "=0.10.9"
thiserror = "=2.0.21"
unicode-normalization = "=0.1.26"
zeroize = "=1.9.1"
