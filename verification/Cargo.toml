[package]
name = "km_relay"
version = "0.1.0"
edition = "2021"
publish = false

[dependencies]
hex = "0.4"
clap = { version = "4", features = ["derive"] }
serde = { version = "1", features = ["derive"] }
toml = "0.8"
hidapi = { version = "2", default-features = false, features = ["linux-native-basic-udev"] }
serialport = { version = "4", default-features = false }
log = "0.4"
env_logger = "0.11"
evdev = "0.12"
