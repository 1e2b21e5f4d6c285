[package]
name = "midnight2_core"
version = "0.1.0"
edition = "2021"
publish = false

[dependencies]
wgpu-hal = "0.19"
wgpu-types = "0.19"
winit = "0.29"
raw-window-handle = "0.6"
log = "0.4"
cfg-if = "1"
