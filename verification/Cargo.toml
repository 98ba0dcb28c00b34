[package]
name = "wordbomb_external"
version = "0.1.0"
edition = "2021"
publish = false

[dependencies]
rand = "0.8"
eyre = "0.6"
libloading = "0.8"
mouse_position = "0.1"
image = "0.24"
rusty-tesseract = "1"
opencv = "*"
