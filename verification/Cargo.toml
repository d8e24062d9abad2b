[package]
name = "photo_catalog"
version = "0.1.0"
edition = "2021"
publish = false

[dependencies]
rusqlite = { version = "*", features = ["bundled"] }
tokio = { version = "*", default-features = false, features = ["sync", "rt", "macros"] }
