[package]
name = "softplc"
version = "0.1.0"
edition = "2021"
publish = false

[dependencies]
bitvec = "1"
ethercrab = "*"
smol = "2"
async-io = "2"
log = "0.4"
env_logger = "0.11"
signal-hook = "0.3"
memmap2 = "0.9"
bytemuck = { version = "1", features = ["derive"] }
anyhow = "1"
tokio = { version = "1", features = ["full"] }
async-opcua = { version = "*", features = ["server"] }
