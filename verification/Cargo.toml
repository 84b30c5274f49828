[package]
name = "letter"
version = "0.1.0"
edition = "2021"
publish = false

[dependencies]
unicode-segmentation = "1"
validator = "0.16"
hmac = "0.12"
sha2 = "0.10"
hex = "0.4"
urlencoding = "2"
htmlescape = "0.3"
base64 = "0.22"
chrono = "0.4"
rand = "0.8"
argon2 = "0.5"
actix-web = "4"
tokio = { version = "1", features = ["macros", "rt-multi-thread"] }
serde = { version = "1", features = ["derive"] }
reqwest = { version = "0.12", default-features = false, features = ["json"] }

[dev-dependencies]
fake = "2"
