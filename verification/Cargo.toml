[package]
name = "melty_control"
version = "0.1.0"
edition = "2021"
publish = false

[dependencies]
embassy-executor = "=0.6.3"
embassy-net = { version = "=0.4.0", features = ["udp", "medium-ethernet", "proto-ipv4"] }
embassy-sync = "=0.6.2"
embassy-time = { version = "=0.3.2", features = ["std"] }
esp-alloc = "=0.5.0"
esp-backtrace = "=0.14.2"
esp-hal = "=0.21.1"
esp-hal-embassy = "=0.4.0"
esp-println = "=0.12.0"
esp-wifi = { version = "=0.10.1", features = ["wifi"] }
libm = "0.2"
static_cell = "=2.1.1"
