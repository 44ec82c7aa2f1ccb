[package]
name = "bkmk"
version = "0.1.0"
edition = "2021"
publish = false

[dependencies]
dirs = "3"
regex = "1"
ron = "0.6"
serde = { version = "1", features = ["derive"] }
structopt = "0.3"
