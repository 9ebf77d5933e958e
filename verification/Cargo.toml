[package]
name = "cardputer"
version = "0.1.0"
edition = "2021"
publish = false

[dependencies]
anyhow = "*"
esp-idf-hal = "*"
display-interface-spi = "*"
mipidsi = "*"
