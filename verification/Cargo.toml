[package]
name = "feature_store"
version = "0.1.0"
edition = "2021"
publish = false

[dependencies]
parking_lot = "0.12"
actix-web = { version = "4", default-features = false, features = ["macros"] }
actix-web-prometheus = "0.1"
serde = { version = "1", features = ["derive"] }
serde_json = "1"
tracing = "0.1"
tracing-subscriber = { version = "0.3", features = ["json"] }
reqwest = { version = "0.11", default-features = false, features = ["json"] }
rand = "0.8"
rayon = "1"
