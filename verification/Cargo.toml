[package]
name = "mod3d_gl"
version = "0.1.0"
edition = "2021"
publish = false

[dependencies]
gl = "*"
mod3d-base = "*"
serde = { version = "*", features = ["derive"] }
