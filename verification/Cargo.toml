[package]
name = "cec_bridge"
version = "0.1.0"
edition = "2021"
publish = false

[dependencies]
cec-rs = "*"
evdev = "*"
hostname = "*"
http-body-util = "*"
hyper = { version = "*", features = ["server", "http1"] }
hyper-util = { version = "*", features = ["tokio"] }
log = "*"
pretty_env_logger = "*"
system_shutdown = "*"
tokio = { version = "*", features = ["macros", "rt-multi-thread", "net"] }
