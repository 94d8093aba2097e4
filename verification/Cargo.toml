[package]
name = "libmemetendo"
version = "0.1.0"
edition = "2021"
publish = false

[dependencies]
anyhow = "=1.0.104"
clap = { version = "=3.2.25", features = ["cargo"] }
env_logger = "=0.11.11"
log = "=0.4.35"
sdl2 = "*"

[dev-dependencies]
intbits = "=0.2.0"
