[package]
name = "gestro"
version = "0.1.0"
edition = "2021"
publish = false

[dependencies]
serde = { version = "1", features = ["derive"] }
serde_json = "1"
directories = "6"
log = "0.4"
env_logger = "0.11"
crossbeam-channel = "0.5"
rdev = { version = "0.5", features = ["unstable_grab"] }
enigo = "0.2"
