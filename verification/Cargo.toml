[package]
name = "avionics_sw_hapsis"
version = "0.1.0"
edition = "2021"
publish = false

[dependencies]
embassy-sync = "*"
embassy-time = "*"
embassy-executor = "*"
embassy-stm32 = { version = "*", features = ["stm32f429zi"] }
defmt = "*"
defmt-rtt = "*"
panic-probe = "*"
libm = "*"
