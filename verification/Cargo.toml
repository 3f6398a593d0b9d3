[package]
name = "backlight_popup"
version = "0.1.0"
edition = "2021"
publish = false

[dependencies]
gtk = "0.16"
ron = "0.8"
serde = { version = "1", features = ["derive"] }
signal-hook = "0.3"
xdg = "2"
