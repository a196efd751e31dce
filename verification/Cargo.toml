[package]
name = "ember"
version = "0.1.0"
edition = "2021"
publish = false

[dependencies]
serde = { version = "1", features = ["derive"] }
ron = "0.8"
log = "0.4"
simple_logger = "4"
thiserror = "1"
noise = "0.7"
