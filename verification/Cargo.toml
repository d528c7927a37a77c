[package]
name = "machine_core"
version = "0.1.0"
edition = "2021"
publish = false

[dependencies]
rand = "*"
uuid = { version = "*", features = ["v4"] }
super-slab = "*"
smol = "*"
futures = "*"
num_cpus = "*"
config = "*"
serde = { version = "*", features = ["derive"] }
