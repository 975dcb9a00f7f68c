[package]
name = "stm32_gpios"
version = "0.1.0"
edition = "2021"
publish = false

[dependencies]
embedded-graphics = "0.8"
embedded-hal = "0.2"
futures = "0.3"
sh1106 = "0.5"
