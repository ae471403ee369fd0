[package]
name = "udp_radio"
version = "0.1.0"
edition = "2021"
publish = false

[dependencies]
base64 = "=0.13.1"
heapless = "=0.5.6"
hex = "=0.4.3"
lorawan = "=0.7.1"
lorawan-device = "=0.7.1"
semtech-udp = "=0.4.1"
serde = "=1.0.229"
tokio = { version = "=0.2.25", features = ["sync", "time", "rt-core"] }
