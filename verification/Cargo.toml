[package]
name = "stick_s3"
version = "0.1.0"
edition = "2021"
publish = false

[dependencies]
display-interface = "*"
display-interface-spi = "*"
embedded-graphics = "*"
embedded-hal = "*"
embedded-svc = "*"
esp-idf-hal = "*"
esp-idf-svc = "*"
futures = "*"
futures-timer = "*"
log = "*"
