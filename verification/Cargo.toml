[package]
name = "grindstone"
version = "0.1.0"
edition = "2021"
publish = false

[dependencies]
cfg-if = "*"
dirs = "*"
futures = "*"
hex = "*"
log = "*"
reqwest = { version = "*", default-features = false, features = ["json"] }
serde = { version = "*", features = ["derive"] }
serde_json = "*"
sha1 = "*"
thiserror = "*"
time = { version = "*", features = ["serde", "formatting", "parsing", "serde-well-known"] }
tokio = { version = "*", features = ["rt-multi-thread", "macros", "fs", "io-util", "sync"] }
