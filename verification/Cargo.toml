[package]
name = "llm_engine"
version = "0.1.0"
edition = "2021"
publish = false

[dependencies]
dirs = "*"
llama-cpp-2 = "*"
once_cell = "*"
parking_lot = "*"
rand = "*"
serde = { version = "*", features = ["derive"] }
serde_json = "*"
zeroize = "*"
