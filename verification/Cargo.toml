[package]
name = "glow_painter"
version = "0.1.0"
edition = "2021"
publish = false

[dependencies]
bytemuck = "=1.25.2"
egui = { version = "=0.33.3", default-features = false, features = ["bytemuck"] }
glow = "=0.18.0"
log = "=0.4.34"
memoffset = "=0.9.1"
profiling = "=1.0.18"
