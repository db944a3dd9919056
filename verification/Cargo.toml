[package]
name = "remote_mirror"
version = "0.1.0"
edition = "2021"
publish = false

[dependencies]
dirs = "*"
serde_json = "*"
russh = "*"
russh-sftp = "*"
tokio = { version = "*", features = ["rt", "time", "fs", "io-util", "macros", "net", "sync"] }
glob = "*"
log = "*"
