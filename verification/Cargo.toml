[package]
name = "protogen_face"
version = "0.1.0"
edition = "2021"
publish = false

[dependencies]
cpal = "*"
gilrs = "*"
ffmpeg-next = "*"
rpi-led-matrix = "*"
