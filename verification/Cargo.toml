[package]
name = "multimeter-engine"
version = "0.1.0"
edition = "2021"
publish = false

[dependencies]
regex = "1"
anyhow = "1"
log = "0.4"
env_logger = "*"
serde = { version = "1", features = ["derive"] }
serde_json = "1"
toml = "*"
tokio = { version = "1", features = ["rt-multi-thread", "macros", "net", "io-util", "sync", "time"] }
tokio-util = { version = "*", features = ["codec"] }
futures = "0.3"
sysinfo = "*"
starship-battery = "*"
lm-sensors = "*"
nvml-wrapper = "*"
libc = "0.2"
chrono = "0.4"
shell-words = "1"
lazy_static = "1"
is_elevated = "*"
