[package]
name = "hellomch"
version = "0.1.0"
edition = "2021"
publish = false

[dependencies]
anyhow = "=1.0.104"
display-interface = "=0.5.0"
display-interface-spi = "=0.5.0"
embedded-graphics = "=0.8.2"
embedded-svc = "=0.29.0"
esp-idf-svc = "=0.53.0"
git-version = "=0.3.9"
heapless = "=0.9.3"
ili9341 = "=0.6.0"
log = "=0.4.34"
thiserror = "=2.0.21"
