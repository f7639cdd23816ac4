[package]
name = "esp_playground"
version = "0.1.0"
edition = "2021"
publish = false

[dependencies]
anyhow = "1"
log = "0.4"
embedded-graphics = "*"
display-interface = "*"
embedded-hal = "1"
embedded-svc = "*"
esp-idf-hal = "*"
esp-idf-svc = "*"
esp-idf-sys = "*"
hd44780-driver = "*"
ssd1306 = "*"
toml-cfg = "*"
rand = "0.8"
