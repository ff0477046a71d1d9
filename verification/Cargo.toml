[package]
name = "mu_pi"
version = "0.1.0"
edition = "2021"
publish = false

[dependencies]
r-efi = "*"
uuid = "1"
serde = { version = "1", features = ["derive"] }
brotli-decompressor = "*"

[dev-dependencies]
serde_json = "1"
