[package]
name = "invaders"
version = "0.1.0"
edition = "2021"
publish = false

[dependencies]
image = { version = "*", default-features = false, features = ["jpeg"] }
piston_window = "=0.133.1"
