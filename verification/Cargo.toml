[package]
name = "niri_touch_settings"
version = "0.1.0"
edition = "2021"
publish = false

[dependencies]
kdl = { version = "=6.7.1", features = ["v1-fallback"] }
gtk4 = "=0.9.7"
libadwaita = { version = "=0.7.2", features = ["v1_4"] }
