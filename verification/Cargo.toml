[package]
name = "aleph_alpha_api"
version = "0.1.0"
edition = "2021"
publish = false

[dependencies]
base64 = "=0.23.1"
bytes = "=1.12.1"
image = "=0.25.10"
reqwest = { version = "=0.13.5", default-features = false }
thiserror = "=2.0.21"
tokenizers = { version = "=0.23.2", default-features = false, features = ["fancy-regex"] }

[dev-dependencies]
serde_json = "=1.0.151"
