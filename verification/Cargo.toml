[package]
name = "wayland_protocols_async"
version = "0.1.0"
edition = "2021"
publish = false

[dependencies]
slotmap = "1"
tokio = { version = "1", features = ["full"] }
wayland-client = "0.31"
wayland-protocols = { version = "0.32", features = ["client", "staging", "unstable"] }
wayland-protocols-wlr = { version = "0.3", features = ["client"] }
wayland-protocols-misc = { version = "0.3", features = ["client"] }
memmap2 = "0.9"
shmemfdrs = "*"
