[package]
name = "backlight_stepper"
version = "0.1.0"
edition = "2021"
publish = false

[dependencies]
async-std = { version = "=1.13.2", features = ["attributes"] }
logind-zbus = "=5.3.2"
zbus = "=5.19.0"
