[package]
name = "ss5_piston"
version = "0.1.0"
edition = "2021"
publish = false

[dependencies]
serde = { version = "*", features = ["derive"] }
serde_json = "*"
gfx_core = "*"
piston-gfx_texture = "*"
piston2d-graphics = "*"
