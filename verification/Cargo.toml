[package]
name = "raytracer"
version = "0.1.0"
edition = "2021"
publish = false

[dependencies]
cgmath = "0.18"
clap = "2.34"
image = { version = "0.24", default-features = false, features = ["png", "jpeg"] }
log = "0.4"
nom = "3.2"

[dev-dependencies]
float-ord = "0.3"
