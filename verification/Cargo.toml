[package]
name = "etax"
version = "0.1.0"
edition = "2021"
publish = false

[dependencies]
pdf = "*"
reqwest = { version = "*", default-features = false, features = ["blocking", "json"] }
serde = { version = "*", features = ["derive"] }
clap = "*"
log = "*"
syslog = "*"
