[package]
name = "crabodon"
version = "0.1.0"
edition = "2021"
publish = false

[dependencies]
kuchiki = "0.8"
url = "2"
serde = { version = "1", features = ["derive"] }
chrono = { version = "0.4", default-features = false, features = ["std", "serde"] }
pretend = "*"
