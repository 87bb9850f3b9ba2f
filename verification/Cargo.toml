[package]
name = "zircon"
version = "0.1.0"
edition = "2021"
publish = false

[dependencies]
clap = { version = "*", features = ["derive"] }
dirs = "*"
flate2 = "*"
git2 = "*"
reqwest = { version = "*", features = ["blocking"] }
sha2 = "*"
tar = "*"
zip = { version = "*", default-features = false, features = ["deflate"] }
