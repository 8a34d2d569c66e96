[package]
name = "carlogger"
version = "1.1.0"
edition = "2021"
publish = false

[dependencies]
hex = "*"
chrono = "*"
chrono-tz = "*"
clap = { version = "*", features = ["derive"] }
geoutils = "*"
gpio = "*"
libc = "*"
log = "*"
signal-hook = "*"
socketcan = "*"
threadpool = "*"
uom = "*"
