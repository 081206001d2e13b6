[package]
name = "murale"
version = "0.1.0"
edition = "2021"
publish = false

[dependencies]
anyhow = "=1.0.104"
clap = { version = "=4.6.7", features = ["derive"] }
gl = "=0.14.0"
khronos-egl = { version = "=6.0.0", features = ["dynamic"] }
libc = "=0.2.191"
libloading = "=0.8.9"
libmpv2 = "=6.0.0"
libmpv2-sys = "=4.0.1"
nix = { version = "=0.30.1", features = ["event", "poll"] }
smithay-client-toolkit = { version = "=0.20.0", default-features = false }
thiserror = "=2.0.21"
tracing = "=0.1.44"
tracing-subscriber = { version = "=0.3.23", features = ["env-filter"] }
wayland-client = { version = "=0.31.15", features = ["dlopen", "system"] }
wayland-egl = "=0.32.11"
