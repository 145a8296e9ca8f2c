[package]
name = "syncprims"
version = "0.1.0"
edition = "2021"
publish = false

[dependencies]
atomic-wait = "1"
atomic_refcell = "0.1"

[dev-dependencies]
crossbeam-utils = "0.8"
