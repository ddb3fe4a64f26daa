[package]
name = "fluid"
version = "0.1.0"
edition = "2021"
publish = false

[dependencies]
chrono = "0.4"
nannou = "0.18"
nannou_egui = "0.5"
