[package]
name = "eye_spy"
version = "0.1.0"
edition = "2021"
publish = false

[dependencies]
anyhow = "*"
get_if_addrs = "*"
lazy_static = "*"
log = "*"
mdns-sd = "*"
openh264 = "*"
serde = { version = "*", features = ["derive"] }
serde_json = "*"
thiserror = "*"
uuid = { version = "*", features = ["v4"] }
v4l = "*"
