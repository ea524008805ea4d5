[package]
name = "co2nsole"
version = "0.1.0"
edition = "2021"
publish = false

[dependencies]
chrono = "*"
tokio = { version = "*", features = ["rt", "rt-multi-thread", "macros", "sync", "time"] }
btleplug = "*"
uuid = "*"
futures = "*"
crossterm = "*"
notify-rust = "*"
