[package]
name = "jre_bootstrap"
version = "0.1.0"
edition = "2021"
publish = false

[dependencies]
sha1 = "*"
crc32fast = "*"
zip = { version = "*", default-features = false, features = ["deflate"] }
minreq = "*"
serde = { version = "*", features = ["derive"] }
serde_json = "*"
anyhow = "*"
dirs = "*"
