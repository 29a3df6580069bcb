[package]
name = "scene_viewer"
version = "0.1.0"
edition = "2021"
publish = false

[dependencies]
anyhow = "1"
cfg-if = "1"
glam = "0.24"
histogram = "0.6"
image = { version = "0.24", default-features = false, features = ["png", "jpeg", "tiff"] }
indoc = "2"
log = "0.4"
pico-args = "0.5"
pollster = "0.3"
profiling = { version = "1", default-features = false }
web-time = "0.2"
