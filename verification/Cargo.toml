[package]
name = "rokol_learn_opengl"
version = "0.1.0"
edition = "2021"
publish = false

[dependencies]
env_logger = "=0.11.11"
glam = "=0.29.3"
image = { version = "=0.25.10", default-features = false, features = ["jpeg", "png"] }
rokol = { version = "=0.4.0", default-features = false, features = ["glcore33", "impl-app", "impl-gfx"] }
