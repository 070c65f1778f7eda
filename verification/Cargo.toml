[package]
name = "mxross_canvas"
version = "0.1.0"
edition = "2021"
publish = false

[dependencies]
png = "=0.18.1"
glam = { version = "=0.30.10", features = ["serde"] }
serde = { version = "=1.0.229", features = ["derive"] }
log = "=0.4.35"
env_logger = "=0.11.11"
anyhow = "=1.0.104"
egui = "=0.37.0"
jni = "0.22"
ndk-context = "*"
