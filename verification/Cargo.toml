[package]
name = "powertoys_roulette"
version = "0.1.0"
edition = "2021"
publish = false

[dependencies]
rand = "0.8"
eframe = { version = "0.29", default-features = false, features = ["wgpu", "default_fonts", "x11", "wayland"] }
wgpu = "22"
log = "0.4"
env_logger = "0.11"
clap = { version = "4", features = ["derive"] }
rmcp = { version = "0.3", features = ["server", "macros", "transport-io"] }
tokio = { version = "1", features = ["full"] }
