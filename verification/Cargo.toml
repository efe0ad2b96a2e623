[package]
name = "wallpaper_export"
version = "0.1.0"
edition = "2021"
publish = false

[dependencies]
serde_json = "*"
uuid = { version = "*", features = ["v4"] }
zip = { version = "*", default-features = false, features = ["deflate"] }
