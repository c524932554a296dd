[package]
name = "peeches"
version = "0.1.0"
edition = "2021"
publish = false

[dependencies]
ringbuffer = "=0.16.0"
anyhow = "1"
log = "0.4"
serde = { version = "1", features = ["derive"] }
serde_json = "1"
samplerate = "0.2"
cpal = "0.15"
cidre = "*"
futures = "0.3"
futures-util = "0.3"
reqwest = { version = "0.12", features = ["stream"] }
whisper-rs = "0.13"
candle-core = "0.8"
candle-nn = "0.8"
candle-transformers = "0.8"
tokenizers = "0.21"
