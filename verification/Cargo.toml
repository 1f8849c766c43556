[package]
name = "director_general"
version = "0.1.0"
edition = "2021"
publish = false

[dependencies]
anyhow = "=1.0.104"
chrono = { version = "=0.4.45", features = ["serde"] }
getrandom = "=0.4.3"
global-hotkey = "=0.7.0"
hound = "=3.5.1"
num_cpus = "=1.17.0"
serde = { version = "=1.0.229", features = ["derive"] }
serde_json = "=1.0.154"
uuid = { version = "=1.29.0", features = ["v4"] }
