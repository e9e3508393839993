[package]
name = "easyftp"
version = "0.1.0"
edition = "2021"
publish = false

[dependencies]
suppaftp = "*"
ssh2 = "*"
chrono = "*"
urlencoding = "*"
base64 = "*"
serde = { version = "*", features = ["derive"] }
serde_json = "*"
dirs = "*"
zip = "*"
tar = "*"
flate2 = "*"
bzip2 = "*"
walkdir = "*"
