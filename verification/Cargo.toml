[package]
name = "widget_bridge"
version = "0.1.0"
edition = "2021"
publish = false

[dependencies]
pixel-widgets = { version = "=0.9.1", default-features = false }
