[package]
name = "text_input"
version = "0.1.0"
edition = "2021"
publish = false

[dependencies]
unicode-segmentation = "1"
crossterm = "*"
tui = { version = "*", default-features = false }
serde = { version = "1", features = ["derive"] }
