[package]
name = "arc_swap"
version = "0.1.0"
edition = "2021"
publish = false

[dev-dependencies]
adaptive-barrier = "1"
crossbeam-utils = "0.8"
