[package]
name = "bass_pitch"
version = "0.1.0"
edition = "2021"
publish = false

[dependencies]
cpal = "0.15"
crossbeam-channel = "0.5"
pitch-detection = "0.3"
ringbuf = "0.3"
