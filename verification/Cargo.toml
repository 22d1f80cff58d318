[package]
name = "gpscandump"
version = "0.1.0"
edition = "2021"
publish = false

[dependencies]
chrono = "=0.4.45"
clap = "=3.2.25"
csv = "=1.4.0"
nmea = "=0.0.11"
serde = { version = "=1.0.229", features = ["derive"] }
serialport = { version = "=4.10.1", default-features = false }
socketcan = "=1.7.0"
