[package]
name = "wps"
version = "0.1.0"
edition = "2021"
publish = false

[dependencies]
ferris-says = "=0.2.1"
serde = { version = "=1.0.229", features = ["derive"] }
serde_json = "=1.0.154"
rustyline = "=19.0.0"
