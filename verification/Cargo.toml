[package]
name = "metering"
version = "0.1.0"
edition = "2021"
publish = false

[dependencies]
rust_decimal = "1"
time = "0.3"
time-tz = "2"
