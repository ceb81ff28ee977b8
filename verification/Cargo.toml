[package]
name = "corerpc"
version = "0.1.0"
edition = "2021"
publish = false

[dependencies]
bitcoin = "=0.32.102"
corepc-types = "=0.16.0"
jsonrpc = { version = "=0.21.0", features = ["bitreq_http"] }
serde = "=1.0.229"
serde_json = "=1.0.151"
