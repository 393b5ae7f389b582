[package]
name = "editor"
version = "0.1.0"
edition = "2021"
publish = false

[dependencies]
iced = { version = "0.13", default-features = false, features = ["tiny-skia", "highlighter", "tokio"] }
rfd = "0.15"
tokio = { version = "1", features = ["fs"] }
