[package]
name = "rtx"
version = "0.1.0"
edition = "2021"
publish = false

[dependencies]
embassy-usb = { version = "=0.6.0", default-features = false }
embedded-hal-async = "1"
gcode = "=0.7.0"
heapless = "=0.8.0"
num-traits = "=0.2.19"
pwm-pca9685 = { version = "*", features = ["async"] }
rtic-sync = "*"
ufmt = "=0.2.0"
ufmt_float = "=0.2.0"
