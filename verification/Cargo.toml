[package]
name = "prism_firmware"
version = "0.1.0"
edition = "2021"
publish = false

[dependencies]
daisy = { version = "=0.11.0", features = ["seed"] }
defmt = "=1.2.0"
fugit = "0.3"
microfft = "=0.6.0"
micromath = "=2.1.0"
nb = "=1.1.0"
rtic = { version = "=2.4.0", features = ["thumbv7-backend"] }
rtic-monotonics = { version = "=2.0.3", features = ["cortex-m-systick"] }
rtic-sync = "=1.6.0"
stm32h7xx-hal = "=0.16.0"
