[package]
name = "parrot_sessions"
version = "0.1.0"
edition = "2021"
publish = false

[dependencies]
md5 = "*"
url-builder = "*"
serde = { version = "*", features = ["derive"] }
reqwest = { version = "*", default-features = false, features = ["json", "blocking"] }
rustfm-scrobble = "*"
