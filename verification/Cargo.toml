[package]
name = "pulse_osc"
version = "0.1.0"
edition = "2021"
publish = false

[dependencies]
btleplug = "*"
dirs = "*"
futures = "0.3"
rosc = "*"
serde = { version = "1", features = ["derive"] }
serde_json = "1"
tokio = { version = "1", features = ["macros", "rt-multi-thread", "time"] }
