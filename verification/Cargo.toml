[package]
name = "experiments"
version = "0.1.0"
edition = "2021"
publish = false

[dependencies]
rand = "0.9"
tokio = { version = "1", features = ["full"] }
tokio-util = { version = "0.7", features = ["time"] }
rust_decimal = "1"
sysinfo = "0.33"
wgpu = "22"
