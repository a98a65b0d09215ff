[package]
name = "zeusix_desktop"
version = "0.1.0"
edition = "2021"
publish = false

[dependencies]
base64 = "0.22"
chacha20poly1305 = "0.10"
chrono = "0.4"
device_query = "2"
ed25519-dalek = { version = "2", features = ["rand_core"] }
hkdf = "0.12"
image = { version = "0.25", default-features = false, features = ["jpeg"] }
parking_lot = "0.12"
rand = "0.8"
rusqlite = { version = "0.32", features = ["bundled"] }
serde = { version = "1", features = ["derive"] }
sha2 = "0.10"
uuid = { version = "1", features = ["v4"] }
windows-capture = "1"
x25519-dalek = { version = "2", features = ["static_secrets"] }
