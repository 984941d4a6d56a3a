[package]
name = "bahai_date"
version = "0.1.0"
edition = "2021"
publish = false

[dependencies]
badi-date = "*"
chrono = "*"
chrono-tz = "*"
clap = { version = "*", features = ["derive"] }
iana-time-zone = "*"
