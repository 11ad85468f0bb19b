[package]
name = "relay_dispatch"
version = "0.1.0"
edition = "2021"
publish = false

[dependencies]
mio = { version = "1", features = ["os-poll", "os-ext", "net"] }
ctrlc = "3"
libc = "0.2"
log = "0.4"
