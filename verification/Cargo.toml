[package]
name = "temp_logger"
version = "0.1.0"
edition = "2021"
publish = false

[dependencies]
anyhow = "1"
log = "0.4"
embedded-graphics = "*"
embedded-hal = "*"
ssd1306 = "*"
tinybmp = "*"
toml-cfg = "*"
esp-idf-hal = "*"
esp-idf-svc = "*"
esp-idf-sys = "*"
