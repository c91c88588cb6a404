[package]
name = "live_translate"
version = "0.1.0"
edition = "2021"
publish = false

[dependencies]
anyhow = "1"
candle-core = "0.8"
candle-nn = "0.8"
candle-transformers = "0.8"
chrono = "0.4"
cpal = "0.15"
crossbeam-channel = "0.5"
crossterm = "0.28"
fern = "0.7"
log = "0.4"
reqwest = { version = "0.12", default-features = false, features = ["blocking", "rustls-tls"] }
samplerate = "0.2"
tokenizers = "0.21"
whisper-rs = "0.13"
