[package]
name = "raytracer"
version = "0.1.0"
edition = "2021"
publish = false

[dependencies]
image = { version = "0.23", default-features = false, features = ["png"] }
num_cpus = "1"
rand = "0.8"
rayon = "1"
