[package]
name = "engine"
version = "0.1.0"
edition = "2021"
publish = false

[dependencies]
queues = "1"
cgmath = "0.18"
measurements = "0.11"
glium = "0.32"
image = "0.24"
