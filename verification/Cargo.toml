[package]
name = "chatapp"
version = "0.1.0"
edition = "2021"
publish = false

[dependencies]
actix = "0.13"
actix-web = "4"
actix-web-actors = "4"
bson = "2"
chrono = { version = "0.4", features = ["serde"] }
mongodb = { version = "2", features = ["tokio-sync"] }
serde = { version = "1", features = ["derive"] }
serde_json = "1"
