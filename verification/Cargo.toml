[package]
name = "compiler_ir"
version = "0.1.0"
edition = "2021"
publish = false

[dependencies]
indexmap = "*"
dyn-clone = "*"
clone_dyn = "*"
