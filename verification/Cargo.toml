[package]
name = "rot8"
version = "0.1.3"
edition = "2021"
publish = false

[dependencies]
clap = "2"
glob = "0.3"
regex = "1"
serde = { version = "1", features = ["derive"] }
serde_json = "1"
