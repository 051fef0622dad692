[package]
name = "wally_index"
version = "0.1.0"
edition = "2021"
publish = false

[dependencies]
git2 = { version = "*", default-features = false }
tempfile = "*"
url = "*"
blake3 = "*"
fs-err = "*"
dirs = "*"
toml = "*"
toml_edit = "*"
serde = { version = "*", features = ["derive"] }
serde_json = "*"

[dev-dependencies]
hex = "*"
