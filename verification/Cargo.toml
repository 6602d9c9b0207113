[package]
name = "relative_time"
version = "0.1.0"
edition = "2021"

[dependencies]
chrono = "0.4"
