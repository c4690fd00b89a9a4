[package]
name = "hornbill_apilib"
version = "1.1.0"
edition = "2021"
publish = false

[dependencies]
http = "*"
regex = "*"
reqwest = { version = "*", features = ["blocking"] }
serde = { version = "*", features = ["derive"] }
serde_json = "*"
