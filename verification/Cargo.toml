[package]
name = "cycle_utils"
version = "0.1.0"
edition = "2021"
publish = false

[dependencies]
once_cell = "*"
risc0-zkvm = { version = "*", default-features = false }
risc0-zkvm-platform = "*"
sp1-lib = "*"
