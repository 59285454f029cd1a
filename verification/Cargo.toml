[package]
name = "camera_feed"
version = "0.1.0"
edition = "2021"
rust-version = "1.95"
publish = false

[dependencies]
anyhow = "=1.0.104"
gstreamer = "=0.23.7"
gstreamer-app = "=0.23.5"
gstreamer-video = "=0.23.6"
rgb = "=0.8.53"
slint = { version = "=1.18.1", default-features = false, features = ["std", "compat-1-2"] }
