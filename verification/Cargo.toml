[package]
name = "fan_controller"
version = "0.1.0"
edition = "2021"
publish = false

[dependencies]
heapless = "0.8"
embassy-sync = "*"
embassy-futures = "*"
embassy-time = "*"
embassy-executor = "*"
embassy-net = { version = "*", features = ["tcp", "proto-ipv4", "medium-ethernet"] }
embassy-rp = { version = "*", features = ["rp2040", "time-driver"] }
embassy-usb-logger = "*"
embedded-io-async = "*"
cyw43 = "*"
cyw43-pio = "*"
cortex-m = "*"
lcd1602-driver = "*"
log = "*"
panic-probe = "*"
static_cell = "*"
