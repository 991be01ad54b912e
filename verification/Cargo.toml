[package]
name = "tef"
version = "0.1.0"
edition = "2021"
publish = false

[dependencies]
getset = "0.1"
quick-xml = { version = "0.31", features = ["serialize"] }
serde = { version = "1", features = ["derive"] }
thiserror = "1"
