[package]
name = "grpc_simulation"
version = "0.1.0"
edition = "2021"
publish = false

[dependencies]
aes = "0.7"
block-modes = "0.8"
hex = "0.4"
rand = "0.8"
tokio = { version = "1", features = ["macros", "rt-multi-thread", "time", "sync"] }
tonic = { version = "0.12", features = ["tls"] }
prost = "0.13"
futures = "0.3"
tokio-stream = "0.1"
async-stream = "0.3"
dotenv = "0.15"
http = "1"
regex = "1"
