[package]
name = "uwu_notify"
version = "0.1.0"
edition = "2021"
publish = false

[dependencies]
color-eyre = "0.6"
egui = "0.22"
egui_glow = "0.22"
glow = "0.12"
glutin = "0.30"
raw-window-handle = "0.5"
smithay-client-toolkit = "0.17"
tokio = { version = "1", features = ["macros", "rt-multi-thread"] }
tracing = "0.1"
tracing-log = "0.1"
tracing-subscriber = { version = "0.3", features = ["env-filter"] }
tracing-tree = "0.2"
zbus = "3"
