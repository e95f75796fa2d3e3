[package]
name = "semaphore"
version = "0.1.0"
edition = "2021"
publish = false

[dependencies]
parking_lot = "0.12"
lock_api = "0.4"

[dev-dependencies]
crossbeam-utils = "0.8"
