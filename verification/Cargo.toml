[package]
name = "smop"
version = "0.2.0"
edition = "2021"
publish = false

[dependencies]
anyhow = "=1.0.104"
chrono = "=0.4.45"
clap = { version = "=4.6.7", features = ["derive"] }
comfy-table = { version = "=7.2.2", default-features = false }
console = "=0.15.11"
csv = "=1.4.0"
dialoguer = "=0.11.0"
dirs = "=6.0.0"
dotenvy = "=0.15.7"
flate2 = "=1.1.10"
glob = "0.3"
indicatif = "=0.17.11"
serde = { version = "=1.0.229", features = ["derive"] }
serde_json = "=1.0.154"
sha2 = "=0.10.9"
shellexpand = "=3.1.2"
tar = "=0.4.46"
tempfile = "=3.27.0"
toml = "=0.8.23"
ureq = "=3.5.1"
walkdir = "=2.5.0"
which = "=7.0.3"
zip = { version = "=2.6.1", default-features = false, features = ["deflate"] }
