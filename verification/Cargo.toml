[package]
name = "herebedragons"
version = "0.1.0"
edition = "2021"
publish = false

[dependencies]
raw-window-handle = "0.5"
winit = "0.28"
log = "0.4"
env_logger = "0.10"
dotenv = "0.15"
tokio = { version = "1", features = ["rt-multi-thread", "time"] }
d3d12 = "0.7"
winapi = "0.3"
windows = "0.48"
