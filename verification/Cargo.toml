[package]
name = "redirector"
version = "0.1.0"
edition = "2021"
publish = false

[dependencies]
bcrypt = "0.15"
rand = { version = "0.8", features = ["small_rng"] }
regex = "1"
mongodb = "2"
rocket = { version = "0.5", features = ["json"] }
serde = { version = "1", features = ["derive"] }
serde_json = "1"
