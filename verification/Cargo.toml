[package]
name = "speakly"
version = "0.1.0"
edition = "2021"
publish = false

[dependencies]
serde_json = "1"
hound = "3.5"
rubato = "0.15"
reqwest = { version = "0.12", default-features = false, features = ["json", "multipart", "stream", "rustls-tls"] }
tokio = { version = "1", features = ["time"] }
futures-util = "0.3"
enigo = "0.6"
cpal = "0.15"
whisper-rs = "0.14"
