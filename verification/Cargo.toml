[package]
name = "vid2img"
version = "0.1.0"
edition = "2021"
publish = false

[dependencies]
glib = "0.10"
gstreamer = "0.16"
gstreamer-app = "0.16"
log = "0.4"
thiserror = "1"
