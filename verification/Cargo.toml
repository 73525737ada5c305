[package]
name = "demo1"
version = "0.1.0"
edition = "2021"
publish = false

[dependencies]
embassy-time = "=0.5.1"
heapless = "=0.8.0"
bitvec = { version = "=1.1.1", default-features = false }
utf8_iter = "=1.1.0"
embassy-futures = "=0.1.2"
embassy-usb = "=0.6.0"
embassy-usb-logger = "=0.6.0"
defmt = "=1.2.0"
log = "=0.4.35"
