[package]
name = "rparif"
version = "0.1.0"
edition = "2021"
publish = false

[dependencies]
json = "*"
chrono = "*"
serde = { version = "*", features = ["derive"] }
reqwest = { version = "*", default-features = false, features = ["blocking"] }

[dev-dependencies]
