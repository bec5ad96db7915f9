[package]
name = "dyn_symbol"
version = "0.1.0"
edition = "2021"

[dependencies]
downcast-rs = "1.2"
