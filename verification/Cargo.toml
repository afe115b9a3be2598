[package]
name = "scrolling_led"
version = "0.1.0"
edition = "2021"
publish = false

[dependencies]
cortex-m = "0.7"
cortex-m-rt = "0.7"
heapless = "0.7"
libm = "0.2"
lsm303agr = "0.2"
microbit-v2 = "0.12"
nb = "1"
rtt-target = { version = "0.3", features = ["cortex-m"] }
