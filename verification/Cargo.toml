[package]
name = "cnokhwa"
version = "0.1.0"
edition = "2021"
publish = false

[dependencies]
dcv-color-primitives = "=0.7.1"
nokhwa = { version = "=0.10.11", features = ["output-threaded"] }
parking_lot = "=0.12.5"
