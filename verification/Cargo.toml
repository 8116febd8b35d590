[package]
name = "glare"
version = "0.1.0"
edition = "2021"
publish = false

[dependencies]
heapless = "0.7"
embedded-hal = "0.2"
cortex-m = "0.7"
cortex-m-rtic = "1"
stm32f4xx-hal = { version = "0.14", features = ["stm32f411"] }
