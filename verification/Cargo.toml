[package]
name = "weather_widget"
version = "0.1.0"
edition = "2021"
publish = false

[dependencies]
another_radix_trie = "*"
serde = { version = "*", features = ["derive"] }
serde_json = "*"
