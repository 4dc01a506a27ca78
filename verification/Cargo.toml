[package]
name = "rumba"
version = "0.1.0"
edition = "2021"
publish = false

[dependencies]
tiktoken-rs = "=0.12.1"
itertools = "=0.15.0"
hmac = "=0.12.1"
sha2 = "=0.10.9"
base64 = "=0.22.1"
url = "=2.5.8"
aes-gcm = "=0.10.3"
serde = { version = "=1.0.229", features = ["derive"] }
serde_json = "=1.0.154"
serde_urlencoded = "=0.7.1"
serde_path_to_error = "=0.1.20"
form_urlencoded = "=1.2.2"
chrono = { version = "0.4", default-features = false, features = ["alloc", "std"] }
percent-encoding = "2"
serde_yaml = "0.9"
