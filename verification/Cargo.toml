[package]
name = "smt_toggle"
version = "0.1.0"
edition = "2021"
publish = false

[dependencies]
gtk = "0.18"
iced = { version = "0.14", default-features = false, features = ["tiny-skia", "tokio", "x11"] }
tokio = { version = "1", features = ["rt", "time"] }
tray-icon = "*"
