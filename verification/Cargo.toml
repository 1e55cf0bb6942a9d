[package]
name = "phirlie"
version = "0.1.0"
edition = "2021"
publish = false

[dependencies]
image = { version = "=0.25.10", default-features = false, features = ["png", "jpeg"] }
color-thief = "*"
rand = "=0.8.8"
macroquad = { version = "=0.4.16", default-features = false }
fastblur = "=0.1.1"
anyhow = "=1.0.104"
tracing = "=0.1.44"

[dev-dependencies]
regex = "=1.13.1"
