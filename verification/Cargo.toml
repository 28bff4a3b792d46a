[package]
name = "ohboy"
version = "0.1.0"
edition = "2021"
publish = false

[dependencies]
anyhow = "1"
thiserror = "2"
pollster = "0.4"
egui = "*"
egui-wgpu = "*"
egui-winit = "*"
wgpu = "*"
winit = "0.30"
