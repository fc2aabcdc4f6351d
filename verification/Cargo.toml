[package]
name = "rstreamer"
version = "0.1.0"
edition = "2021"
publish = false

[dependencies]
fast_image_resize = "*"
