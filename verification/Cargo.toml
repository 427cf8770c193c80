[package]
name = "simple_reactor"
version = "0.1.0"
edition = "2021"
publish = false

[dependencies]
bytes = "1"
slab = "0.4"
mio = { version = "1", features = ["os-poll", "net"] }
log = "0.4"
env_logger = "0.11"
