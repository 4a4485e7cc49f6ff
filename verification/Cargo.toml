[package]
name = "basis"
version = "0.1.0"
edition = "2021"
publish = false

[dependencies]
heapless = "=0.8.0"
embedded-can = "=0.4.1"
embassy-futures = "*"
embassy-sync = "*"
embassy-time = "*"
embassy-net = { version = "*", features = ["udp", "tcp", "dhcpv4", "proto-ipv4", "medium-ethernet"] }
embassy-stm32 = { version = "*", features = ["stm32h755zi-cm7", "time-driver-any", "exti"] }
embassy-executor = "*"
embassy-usb = "*"
defmt = "*"
defmt-rtt = "*"
panic-probe = "*"
static_cell = "*"
rand_core = "0.6"
cortex-m-rt = "*"
