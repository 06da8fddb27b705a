[package]
name = "aframp_metrics"
version = "0.1.0"
edition = "2021"
publish = false

[dependencies]
prometheus = "0.13"
