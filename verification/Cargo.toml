[package]
name = "rinuxcore"
version = "0.1.0"
edition = "2021"
publish = false

[dependencies]
crossbeam-queue = "0.3"
pc-keyboard = "0.7"
conquer-once = { version = "0.3", default-features = false }
futures-util = { version = "0.3", default-features = false, features = ["alloc"] }
lazy_static = "1.4"
x86_64 = { version = "0.14", default-features = false, features = ["instructions"] }
