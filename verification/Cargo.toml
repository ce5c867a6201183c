[package]
name = "naanes"
version = "0.1.0"
edition = "2021"
publish = false

[dependencies]
fps_counter = "*"
image = { version = "=0.25.10", default-features = false, features = ["png"] }
nfd = "*"
piston_window = "*"
