[package]
name = "aliapis"
version = "0.1.0"
edition = "2021"
publish = false

[dependencies]
ordermap = "*"
ring = "*"
data-encoding = "*"
chrono = "*"
uuid = { version = "*", features = ["v4"] }
serde = { version = "*", features = ["derive"] }
serde_json = "*"
reqwest = { version = "*", default-features = false, features = ["json"] }
sha2 = "*"
hmac = "*"
