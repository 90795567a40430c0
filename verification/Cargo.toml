[package]
name = "sim800l"
version = "0.1.0"
edition = "2021"
publish = false

[dependencies]
embedded-hal = "0.2"
nb = "1"
heapless = "0.8"
serialport = { version = "4", default-features = false }
tokio = { version = "1", default-features = false, features = ["macros", "rt"] }
