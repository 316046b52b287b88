[package]
name = "tendril"
version = "0.1.0"
edition = "2021"
publish = false

[dependencies]
serde = { version = "1", features = ["derive"] }
serde_json = "1"
toml = "*"
log = "0.4"
env_logger = "*"
clap = { version = "4", features = ["derive"] }
calloop = "*"
wayland-server = "*"
smithay = { version = "*", default-features = false, features = ["backend_winit", "renderer_gl", "wayland_frontend", "desktop"] }
