[package]
name = "loopframe"
version = "0.1.0"
edition = "2021"
publish = false

[dependencies]
flume = "=0.11.1"
pollster = "=0.3.0"
dirs = "=5.0.1"
dialog = "=0.3.0"
log = "=0.4.34"
rustc-hash = "=1.1.0"
