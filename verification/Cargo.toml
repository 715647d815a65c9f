[package]
name = "wayland-display-core"
version = "0.1.0"
edition = "2021"
publish = false

[dependencies]
ash = "=0.38.0"
once_cell = "=1.21.4"
pkg-config = "0.3"
smithay = { version = "=0.4.4", default-features = false, features = ["backend_drm", "backend_egl", "renderer_gl"] }
tracing = "=0.1.44"

[dev-dependencies]
drm-fourcc = "=2.2.0"
