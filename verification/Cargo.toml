[package]
name = "egui_winit_vulkano"
version = "0.1.0"
edition = "2021"
publish = false

[dependencies]
egui = "0.18"
egui-winit = "0.18"
winit = "0.26"
vulkano = "0.29"
