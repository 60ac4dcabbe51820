[package]
name = "esp_voice"
version = "0.1.0"
edition = "2021"
publish = false

[dependencies]
anyhow = "1"
log = "0.4"
esp-idf-svc = "*"
