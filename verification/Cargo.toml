[package]
name = "rendering"
version = "0.1.0"
edition = "2021"
publish = false

[dependencies]
anyhow = "=1.0.104"
ash = "=0.38.0"
ash-window = "=0.13.0"
crossbeam-channel = "=0.5.17"
directories = "=6.0.0"
log = "=0.4.34"
nalgebra = "=0.35.0"
obj-rs = "*"
once_cell = "=1.21.4"
parking_lot = "=0.12.5"
png = "=0.18.1"
raw-window-handle = "=0.6.2"
spirv-reflect = "=0.2.3"
vk-mem = "=0.5.0"
winit = "=0.30.13"
