[package]
name = "freqmeter"
version = "0.1.0"
edition = "2021"
publish = false

[dependencies]
heapless = "=0.5.6"
cortex-m = "=0.6.7"
cortex-m-rt = "=0.6.15"
panic-semihosting = "=0.5.6"
stm32f3 = { version = "=0.8.0", features = ["stm32f303", "rt"] }
stm32f3xx-hal = { version = "=0.3.0", features = ["stm32f303", "rt"] }
