[package]
name = "simple_cmd"
version = "0.1.0"
edition = "2021"
publish = false

[dependencies]
crossbeam = "0.8"
crossbeam-channel = "0.5"
signal-hook = "0.3"
thiserror = "1"
tracing = "0.1"
