[package]
name = "activity_extensions"
version = "0.1.0"
edition = "2021"
publish = false

[dependencies]
activitystreams = "0.7.0-alpha.0"
axum = { version = "0.8", default-features = false, features = ["json"] }
serde = { version = "1", features = ["derive"] }
serde_json = "1"
url = "2"
