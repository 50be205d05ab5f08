[package]
name = "baba"
version = "0.1.0"
edition = "2021"
publish = false

[dependencies]
bytemuck = { version = "1", features = ["derive"] }
ecolor = "*"
env_logger = "*"
glam = "*"
image = { version = "*", default-features = false, features = ["png"] }
log = "0.4"
parking_lot = "0.12"
sdl2 = "*"
sdl2-sys = "*"
thiserror = "1"
