[package]
name = "rayflux"
version = "0.1.0"
edition = "2021"
publish = false

[dependencies]
glam = "*"
rayon = "*"
image = { version = "*", default-features = false, features = ["png"] }
clap = { version = "*", features = ["derive"] }
