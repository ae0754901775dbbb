[package]
name = "bullseyegolf_light"
version = "0.1.0"
edition = "2021"
publish = false

[dependencies]
html = "0.6"
reqwest = { version = "0.11", features = ["blocking", "json"] }
serde = { version = "1", features = ["derive"] }
serde_urlencoded = "0.7"
tuple = "0.5"
