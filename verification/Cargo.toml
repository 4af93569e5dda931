[package]
name = "vlt1"
version = "0.1.0"
edition = "2021"
publish = false

[dependencies]
aes-gcm-siv = "0.11"
anyhow = "1"
argon2 = "0.5"
base64 = "0.22"
clap = { version = "4", features = ["derive"] }
constant_time_eq = "0.3"
ed25519-dalek = "2"
hex = "0.4"
hkdf = "0.12"
nix = { version = "0.29", features = ["socket", "user"] }
rand = "0.8"
rpassword = "7"
rusqlite = { version = "0.31", features = ["backup", "bundled"] }
serde = { version = "1", features = ["derive"] }
serde_json = "1"
sha2 = "0.10"
tempfile = "3"
thiserror = "1"
tiny_http = "0.12"
ureq = { version = "2", features = ["json"] }
zeroize = "1"
