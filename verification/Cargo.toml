[package]
name = "oppgave"
version = "0.1.0"
edition = "2021"
publish = false

[dependencies]
libc = "*"
redis = { version = "*", default-features = false }
serde = { version = "*", features = ["derive"] }
serde_derive = "*"
serde_json = "*"
