[package]
name = "frisquet_connect"
version = "0.1.0"
edition = "2021"
publish = false

[dependencies]
hex = "*"
clap = { version = "*", features = ["derive"] }
serde = { version = "*", features = ["derive"] }
serde_json = "*"
toml = "*"
reqwest = { version = "*", default-features = false, features = ["blocking", "json"] }
paho-mqtt = "*"
serialport = { version = "*", default-features = false }
