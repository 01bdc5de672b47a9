[package]
name = "mcp23017"
version = "0.1.0"
edition = "2021"
publish = false

[dependencies]
heapless = "=0.8.0"
embedded-hal = "=1.0.0"
embedded-hal-async = "=1.0.0"
embassy-futures = "=0.1.2"
embassy-sync = "=0.8.0"
embassy-time = "=0.5.1"
embassy-stm32 = { version = "*", features = ["stm32f103c8", "exti"] }
collect_array_ext_trait = "*"
