[package]
name = "steamdeck_touch"
version = "0.1.0"
edition = "2021"
publish = false

[dependencies]
serde = { version = "=1.0.229", features = ["derive"] }
serde_json = "=1.0.151"
libc = "=0.2.190"
hidapi = { version = "=2.6.7", default-features = false, features = ["linux-native-basic-udev"] }
