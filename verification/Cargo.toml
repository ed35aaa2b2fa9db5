[package]
name = "proget"
version = "0.1.0"
edition = "2021"
publish = false

[dependencies]
base64 = "*"
reqwest = { version = "*", default-features = false }
semver = "*"
serde_json = "*"
