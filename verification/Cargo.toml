[package]
name = "genmeta_xtask_release"
version = "0.1.0"
edition = "2021"
publish = false

[dependencies]
aws-credential-types = "1"
aws-sdk-s3 = "1"
cargo_metadata = "*"
clap = { version = "4", features = ["derive"] }
debversion = "*"
rpm-version = "*"
semver = "1"
serde = { version = "1", features = ["derive"] }
serde_json = "1"
sha2 = "0.10"
tempfile = "3"
tokio = { version = "1", features = ["rt-multi-thread", "macros"] }
toml = "*"
walkdir = "2"
