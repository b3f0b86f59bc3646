[package]
name = "event_handler"
version = "0.1.0"
edition = "2021"
publish = false

[dependencies]
futures-signals = "0.3"
silkenweb = "*"
