[package]
name = "stm32_flash"
version = "0.1.0"
edition = "2021"
publish = false

[dependencies]
stm32f4 = { version = "0.8", features = ["stm32f407"] }
