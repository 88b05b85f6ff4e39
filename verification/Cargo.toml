[package]
name = "rustc_plug_ast"
version = "0.1.0"
edition = "2021"

[dependencies]
rustc_plugin = "*"
serde = { version = "1", features = ["derive"] }
