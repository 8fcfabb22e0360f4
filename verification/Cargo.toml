[package]
name = "cot_proto"
version = "0.1.0"
edition = "2021"
publish = false

[dependencies]
chrono = "=0.4.45"
quick-xml = { version = "=0.37.5", features = ["serialize"] }
serde = { version = "=1.0.229", features = ["derive"] }
thiserror = "=1.0.69"
uuid = { version = "=1.29.0", features = ["v4"] }
