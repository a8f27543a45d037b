[package]
name = "cloudboard_tray"
version = "0.1.0"
edition = "2021"
publish = false

[dependencies]
rust-i18n = "3"
once_cell = "1"
serde = { version = "1", features = ["derive"] }
