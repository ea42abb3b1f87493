[package]
name = "physical_device"
version = "0.1.0"
edition = "2021"
publish = false

[dependencies]
num_cpus = "1"
winapi = { version = "0.3", features = ["sysinfoapi", "winnt"] }
