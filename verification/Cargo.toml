[package]
name = "truvis_app"
version = "0.1.0"
edition = "2021"
publish = false

[dependencies]
glam = "*"
log = "0.4"
serde = { version = "1", features = ["derive"] }
serde_json = "1"
