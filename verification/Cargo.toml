[package]
name = "telegram_bot"
version = "0.1.0"
edition = "2021"
publish = false

[dependencies]
json = "*"
urlencoding = "*"
reqwest = { version = "*", default-features = false, features = ["blocking"] }
