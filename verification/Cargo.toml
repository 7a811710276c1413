[package]
name = "wasm-pack"
version = "0.1.0"
edition = "2021"
publish = false

[dependencies]
siphasher = "1"
hex = "0.4"
which = "6"
dirs = "5"
semver = "1"
console = "0.15"
anyhow = "1"
clap = { version = "4", features = ["derive"] }
ureq = { version = "2", default-features = false, features = ["json"] }
serde = { version = "1", features = ["derive"] }
serde_json = "1"
toml = "0.8"
tar = "0.4"
flate2 = "1"
zip = { version = "0.6", default-features = false, features = ["deflate"] }
walkdir = "2"
glob = "0.3"
log = "0.4"
env_logger = "0.11"
dialoguer = { version = "0.11", default-features = false }
is_executable = "1"
