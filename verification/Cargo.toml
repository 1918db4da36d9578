[package]
name = "workstation"
version = "0.1.0"
edition = "2021"
publish = false

[dependencies]
clap = { version = "4", features = ["derive"] }
expanduser = "1"
eyre = "0.6"
flate2 = "1"
indicatif = "0.17"
reqwest = { version = "0.12", features = ["blocking"] }
serde = { version = "1", features = ["derive"] }
tar = "0.4"
toml = "0.8"
zip = { version = "2", default-features = false, features = ["deflate"] }
