[package]
name = "genetic_solver"
version = "0.1.0"
edition = "2021"
publish = false

[dependencies]
crossbeam = "0.8"
rand = "0.8"
mlua = { version = "*", features = ["lua54", "vendored"] }
