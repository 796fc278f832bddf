[package]
name = "gg18_driver"
version = "0.1.0"
edition = "2021"
publish = false

[dependencies]
serde = { version = "1", features = ["derive"] }
serde_json = "1"
openssl = "0.10"
foreign-types = "0.3"

[dev-dependencies]
prost = { version = "*", default-features = false, features = ["std"] }
