[package]
name = "notify_relay"
version = "0.1.0"
edition = "2021"
publish = false

[dependencies]
log = { version = "=0.4.34", features = ["std"] }
sd-notify = "=0.4.5"
ctrlc = "=3.5.2"
libc = "=0.2.191"
