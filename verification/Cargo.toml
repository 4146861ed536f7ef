[package]
name = "protoactor"
version = "0.1.0"
edition = "2021"
publish = false

[dependencies]
num_cpus = "*"
tokio = { version = "*", features = ["rt-multi-thread", "sync", "time", "macros"] }

[dev-dependencies]
prost = "*"
bytes = "*"
