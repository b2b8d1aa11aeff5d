[package]
name = "localdesktop"
version = "0.1.0"
edition = "2021"
publish = false

[dependencies]
log = "*"
serde = { version = "*", features = ["derive"] }
toml = "*"
wayland-server = "*"
xkbcommon-rs = "*"
