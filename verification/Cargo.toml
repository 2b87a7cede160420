[package]
name = "gui_demo"
version = "0.1.0"
edition = "2021"
publish = false

[dependencies]
egui = "0.31"
egui_glow = "0.31"
egui-winit = "0.31"
glow = "0.16"
glutin = "0.32"
winit = "0.30"
