[package]
name = "sim_circuit"
version = "0.1.0"
edition = "2021"
publish = false

[dependencies]
byteorder = "1"
chrono = { version = "0.4", default-features = false, features = ["std"] }
nalgebra = "*"
regex = "1"
uuid = "1"
