[package]
name = "checkalot"
version = "0.1.0"
edition = "2021"
publish = false

[dependencies]
anyhow = "*"
clap = { version = "*", features = ["derive"] }
colored = "*"
dirs = "*"
duct = "*"
flate2 = "*"
semver = { version = "*", features = ["serde"] }
serde = { version = "*", features = ["derive"] }
serde_yaml = "*"
sha2 = "*"
shell-words = "*"
tar = "*"
tempfile = "*"
thiserror = "*"
toml = "*"
ureq = { version = "*", default-features = false }
walkdir = "*"
zip = { version = "*", default-features = false }
