[package]
name = "vel_node"
version = "0.1.0"
edition = "2021"
publish = false

[dependencies]
egui = "=0.22.0"
