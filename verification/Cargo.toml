[package]
name = "vgp_server"
version = "0.1.0"
edition = "2021"
publish = false

[dependencies]
tokio = { version = "*", features = ["rt", "rt-multi-thread", "sync", "macros", "signal"] }
futures-core = "*"
futures-util = "*"
log = "*"
simple_logger = "*"
uinput = { version = "*", default-features = false }
