[package]
name = "cs2love"
version = "0.1.0"
edition = "2021"
publish = false

[dependencies]
url = "2"
log = "0.4"
serde = { version = "1", features = ["derive"] }
serde_json = "1"
tokio = { version = "1", features = ["full"] }
axum = { version = "0.7", default-features = false, features = ["http1", "json", "tokio"] }
buttplug = "10"
futures = "0.3"
simple_logger = { version = "5", default-features = false, features = ["timestamps"] }
time = { version = "0.3", features = ["macros"] }
