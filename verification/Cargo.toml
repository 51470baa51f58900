[package]
name = "creative_coding_project"
version = "0.1.0"
edition = "2021"
publish = false

[dependencies]
rand = "=0.8.8"
egui = "=0.37.0"
wide = "=1.7.1"
nannou = "0.18"
