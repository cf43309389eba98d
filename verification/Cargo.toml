[package]
name = "gas_simulation"
version = "0.1.0"
edition = "2021"
publish = false

[dependencies]
rand = "*"
sdl2 = { version = "*", features = ["image"] }
