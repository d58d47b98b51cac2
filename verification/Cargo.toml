[package]
name = "rpc_ipc"
version = "0.1.0"
edition = "2021"
publish = false

[dependencies]
bincode = { version = "2", features = ["derive"] }
syn = { version = "2", features = ["full"] }
quote = "1"
proc-macro2 = "1"
crossbeam = "0.8"
tokio = { version = "1", features = ["full"] }
uuid = { version = "1", features = ["v4"] }
