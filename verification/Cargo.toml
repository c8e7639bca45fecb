[package]
name = "epoch_image"
version = "0.1.0"
edition = "2021"
publish = false

[dependencies]
rusttype = "=0.9.3"
owned_ttf_parser = "=0.15.2"
image = { version = "=0.25.10", default-features = false, features = ["png", "jpeg"] }
actix-web = { version = "=4.15.0", default-features = false, features = ["macros"] }
chrono = { version = "=0.4.45", default-features = false, features = ["clock"] }
serde = { version = "=1.0.229", features = ["derive"] }
