[package]
name = "vaminfo"
version = "0.1.0"
edition = "2021"
publish = false

[dependencies]
colored = "2"
crossterm = "0.28"
serde = { version = "1", features = ["derive"] }
sysinfo = "0.32"
toml = "0.8"
