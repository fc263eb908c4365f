[package]
name = "iam_core"
version = "0.1.0"
edition = "2021"
publish = false

[dependencies]
jsonwebtoken = "9"
serde_json = "1"
chrono = "0.4"
uuid = { version = "1", features = ["v4"] }
tera = { version = "1", default-features = false }
lettre = { version = "0.11", default-features = false, features = ["smtp-transport", "builder", "hostname", "pool"] }
