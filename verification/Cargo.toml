[package]
name = "image_server"
version = "0.1.0"
edition = "2021"
publish = false

[dependencies]
image = { version = "=0.25.10", default-features = false, features = ["png", "jpeg", "gif", "ico"] }
actix-web = "=4.15.0"
bytes = "=1.12.1"
futures = "=0.3.34"
serde = { version = "=1.0.229", features = ["derive"] }
