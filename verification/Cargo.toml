[package]
name = "caption_stream"
version = "0.1.0"
edition = "2021"
publish = false

[dependencies]
serde_json = "=1.0.151"
anyhow = "=1.0.104"
poem = { version = "=3.1.12", features = ["multipart", "sse"] }
tokio = { version = "=1.53.2", features = ["full"] }
tokio-stream = "=0.1.19"
futures-util = "=0.3.34"
candle-core = "=0.11.0"
candle-nn = "=0.11.0"
candle-transformers = "=0.11.0"
tokenizers = "=0.15.2"
hf-hub = "=0.3.2"
image = { version = "=0.24.9", default-features = false, features = ["jpeg", "png"] }
