[package]
name = "node_bench"
version = "0.1.0"
edition = "2021"
publish = false

[dependencies]
ethers = { version = "=2.0.14", default-features = false, features = ["rustls"] }
serde_json = "=1.0.151"
dotenv = "=0.15.0"
tokio = { version = "1", features = ["rt-multi-thread"] }
