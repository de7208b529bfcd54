[package]
name = "fmc_hal"
version = "0.1.0"
edition = "2021"
publish = false

[dependencies]
stm32-fmc = "*"
stm32f4 = { version = "*", features = ["stm32f469"] }
