[package]
name = "exgui"
version = "0.1.0"
edition = "2021"
publish = false

[dependencies]
gl = "=0.14.0"
glutin = "=0.24.1"
font-kit = "=0.6.0"
pathfinder_canvas = { version = "=0.5.0", features = ["pf-text"] }
pathfinder_content = "=0.5.0"
pathfinder_gl = "=0.5.0"
pathfinder_renderer = "=0.5.0"
pathfinder_resources = "=0.5.0"
pathfinder_simd = "=0.5.6"
skribo = "=0.1.0"
