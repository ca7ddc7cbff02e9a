[package]
name = "rust_code_visualizer"
version = "0.1.0"
edition = "2021"
publish = false

[dependencies]
syn = { version = "2", features = ["full"] }
proc-macro2 = "1"
petgraph = "0.6"
