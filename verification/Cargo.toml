[package]
name = "soundboard"
version = "0.1.0"
edition = "2021"
publish = false

[dependencies]
serde = { version = "=1.0.229", features = ["derive"] }
serde_json = "=1.0.154"
bool_to_bitflags = { version = "=0.1.3", features = ["typesize"] }
bitflags = "=2.13.2"
typesize = "=0.1.15"
