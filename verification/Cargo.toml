[package]
name = "autoclicker"
version = "0.1.0"
edition = "2021"
publish = false

[dependencies]
chrono = { version = "=0.4.45", default-features = false, features = ["clock"] }
enigo = "=0.6.1"
serde = { version = "=1.0.229", features = ["derive"] }
tokio = { version = "=1.54.1", default-features = false, features = ["sync", "time"] }
