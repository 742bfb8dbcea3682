[package]
name = "compile_time"
version = "0.1.0"
edition = "2021"
publish = false

[dependencies]
proc-macro2 = "1"
once_cell = "1"

[dev-dependencies]
semver = "1"
