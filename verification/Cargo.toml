[package]
name = "helpers"
version = "0.1.0"
edition = "2021"
publish = false

[dependencies]
base16ct = { version = "0.2", features = ["alloc"] }
bcrypt = "0.17"
blake3 = { version = "1", features = ["pure"] }
chrono = "0.4"
jsonwebtoken = { version = "10", default-features = false, features = ["rust_crypto"] }
md-5 = "0.10"
nanoid = "0.4"
rand = "0.9"
rust-argon2 = "2"
serde = { version = "1", features = ["derive"] }
serde_json = { version = "1", features = ["raw_value"] }
uuid = { version = "1", features = ["v4", "v5"] }
