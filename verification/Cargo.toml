[package]
name = "significant_clock"
version = "0.1.0"
edition = "2021"
publish = false

[dependencies]
crossbeam-channel = "0.5"
chrono = "0.4"
embedded-hal = "1"
embedded-graphics = "0.8"
max7219 = "*"
u8g2-fonts = "*"
