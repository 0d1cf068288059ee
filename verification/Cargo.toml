[package]
name = "ethercrab_soe"
version = "0.1.0"
edition = "2021"
publish = false

[dependencies]
ethercrab-wire = { version = "=0.3.0", features = ["std"] }
