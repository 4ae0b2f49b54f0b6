[package]
name = "frameless_editor"
version = "0.1.0"
edition = "2021"
publish = false

[dependencies]
iced = { version = "0.12", default-features = false, features = ["advanced"] }
