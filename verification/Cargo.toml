[package]
name = "eunha"
version = "0.1.0"
edition = "2021"
publish = false

[dependencies]
ammonia = "=4.2.4"
chrono = "=0.4.45"
emojis = "*"
hex = "=0.4.3"
rand = "=0.9.5"
regex = "=1.13.1"
serde = { version = "=1.0.229", features = ["derive"] }
serde_json = "=1.0.154"
sha2 = "=0.10.9"
url = "=2.5.8"
urlencoding = "=2.1.3"
