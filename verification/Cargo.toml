[package]
name = "vulkayes_core"
version = "0.1.0"
edition = "2021"
publish = false

[dependencies]
ash = "0.31"
arrayvec = "0.5"
log = "0.4"
thiserror = "1"
