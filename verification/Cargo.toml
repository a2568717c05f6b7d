[package]
name = "gateway"
version = "0.1.0"
edition = "2021"
publish = false

[dependencies]
argon2 = "*"
async-trait = "0.1"
base64 = "0.22"
chrono = { version = "0.4", features = ["serde"] }
rand_core = { version = "0.6", features = ["getrandom"] }
reqwest = { version = "0.12", default-features = false, features = ["json", "rustls-tls"] }
serde = { version = "1", features = ["derive"] }
serde_json = "1"
sha2 = "0.10"
subtle = "2"
thiserror = "2"
uuid = { version = "1", features = ["v7"] }
