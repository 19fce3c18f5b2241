[package]
name = "uma_protection"
version = "0.1.0"
edition = "2021"
publish = false

[dependencies]
uuid = { version = "*", features = ["v4"] }
time = "*"
jwt-compact = "*"
serde = { version = "*", features = ["derive"] }
serde_json = "*"
oxiri = "*"
no-way = "*"
futures = "*"
