[package]
name = "playa_ffmpeg"
version = "0.1.0"
edition = "2021"
publish = false

[dependencies]
bitflags = "2"
ffmpeg-sys-next = "*"
libc = "0.2"
