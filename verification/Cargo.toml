[package]
name = "bar"
version = "0.1.0"
edition = "2021"
publish = false

[dependencies]
battery = "=0.7.8"
chrono = "=0.4.45"
futures = "=0.3.34"
iced = { version = "=0.14.0", default-features = false, features = ["canvas", "tokio", "tiny-skia", "x11", "wayland"] }
iced_anim = "=0.3.1"
itertools = "=0.14.0"
libpulse-binding = "=2.30.1"
smol = "=2.0.2"
tokio = { version = "=1.54.1", features = ["sync"] }
tokio-stream = "=0.1.19"
