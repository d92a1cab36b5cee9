[package]
name = "retro_frontend"
version = "0.1.0"
edition = "2021"
publish = false

[dependencies]
rgb565 = "*"
libloading = "*"
libretro-sys = "*"
serde = { version = "*", features = ["derive"] }
toml = "*"
