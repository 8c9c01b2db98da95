[package]
name = "handy_firmware"
version = "0.1.0"
edition = "2021"
publish = false

[dependencies]
heapless = "=0.7.17"
libm = "=0.2.16"
nb = "=1.1.0"
fugit = "=0.3.9"
cortex-m = "=0.7.10"
cortex-m-rtic = "=1.1.4"
systick-monotonic = "=1.0.1"
defmt = "=1.2.0"
defmt-rtt = "=1.3.1"
panic-probe = "=1.0.0"
stm32h7xx-hal = "=0.16.0"
daisy = { version = "=0.11.0", features = ["patch_sm"] }
