[package]
name = "onnx-helpers"
version = "0.3.0"
edition = "2021"
publish = false

[dependencies]
bytes = "0.5"
onnx-pb = "*"
petgraph = "0.5"
prost = "0.6"
