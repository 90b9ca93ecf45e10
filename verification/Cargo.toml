[package]
name = "lift"
version = "0.1.0"
edition = "2021"
publish = false

[dependencies]
rand = "0.8"
serde = { version = "1", features = ["derive"] }
serde_json = "1"
num-traits = "0.2"
enum-iterator = "1"
sdl2 = "0.35"
glow = "0.12"
fontdue = "0.7"
image = { version = "0.24", default-features = false, features = ["png"] }
