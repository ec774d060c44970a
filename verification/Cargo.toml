[package]
name = "randl"
version = "0.1.0"
edition = "2021"
publish = false

[dependencies]
asky = "*"
clap = { version = "4", features = ["derive"] }
figment = { version = "0.10", features = ["toml"] }
flate2 = "1"
humantime = "2"
rand = "0.9"
serde = { version = "1", features = ["derive"] }
serde_json = "1"
sha2 = "0.10"
size = "*"
tar = "0.4"
toml = "*"
ureq = { version = "3", features = ["json"] }
xz2 = "0.1"
