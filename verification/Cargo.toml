[package]
name = "ksud_susfs"
version = "0.1.0"
edition = "2021"
publish = false

[dependencies]
anyhow = "1"
const_format = "0.2"
libc = "0.2"
log = "0.4"
serde = { version = "1", features = ["derive"] }
serde_json = "1"
