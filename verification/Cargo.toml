[package]
name = "render_plan"
version = "0.1.0"
edition = "2021"
publish = false

[dependencies]
quote = "1"
proc-macro2 = "1"
