[package]
name = "audiopass"
version = "0.1.0"
edition = "2021"
publish = false

[dependencies]
ringbuf = "*"
uuid = { version = "*", features = ["v4", "serde"] }
tokio = { version = "*", features = ["rt-multi-thread", "sync", "time", "fs"] }
serde = { version = "*", features = ["derive"] }
serde_json = "*"
single-instance = "*"
eframe = { version = "*", default-features = false, features = ["glow", "x11", "default_fonts"] }
egui-phosphor = "*"
rfd = "*"
pipewire = "*"
