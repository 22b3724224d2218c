[package]
name = "system_monitor"
version = "0.1.0"
edition = "2021"
publish = false

[dependencies]
http = "1"
log = "0.4"
serde = { version = "1", features = ["derive"] }
sysinfo = "0.29"
