[package]
name = "get_cookie"
version = "0.1.0"
edition = "2021"
publish = false

[dependencies]
aes = "=0.8.4"
cbc = { version = "=0.1.2", features = ["alloc", "block-padding"] }
ring = "=0.17.14"
rusqlite = { version = "=0.40.2", features = ["bundled"] }
keyring = { version = "=3.6.3", default-features = false }
dirs = "=7.0.0"
chrono = { version = "=0.4.45", default-features = false, features = ["std"] }
thiserror = "=2.0.21"
