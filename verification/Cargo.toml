[package]
name = "rust_boy"
version = "0.1.0"
edition = "2021"
publish = false

[dependencies]
bincode = "1"
clap = "2"
sdl2 = "*"
serde = { version = "1", features = ["derive"] }
