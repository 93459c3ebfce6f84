[package]
name = "wksl"
version = "0.1.0"
edition = "2021"
publish = false

[dependencies]
clap = "2"
mac_address = { version = "1", features = ["serde"] }
serde = { version = "1", features = ["derive"] }
shellexpand = "2"
thiserror = "1"
toml = "0.5"
