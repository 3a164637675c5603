[package]
name = "wayle-config"
version = "0.1.0"
edition = "2021"
publish = false

[dependencies]
memfd = "=0.6.6"
notify = "=8.2.1"
schemars = "=1.2.3"
serde = { version = "=1.0.229", features = ["derive"] }
serde_json = "=1.0.154"
thiserror = "=2.0.21"
tokio = { version = "=1.54.1", features = ["rt", "rt-multi-thread", "sync", "fs", "time", "macros"] }
toml = "=1.1.8"
tracing = "=0.1.44"
wayland-client = "=0.31.15"
wayland-protocols-hyprland = { version = "=1.2.0", features = ["client"] }
