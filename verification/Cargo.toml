[package]
name = "voxmorph"
version = "0.1.0"
edition = "2021"
publish = false

[dependencies]
serde = { version = "1", features = ["derive"] }
toml = "0.8"
thiserror = "2"
tracing = "0.1"
tracing-subscriber = { version = "0.3", features = ["env-filter", "fmt"] }
crossbeam-channel = "0.5"
ringbuf = "0.4"
rubato = "0.16"
realfft = "3"
hound = "3"
cpal = "0.15"
ort = "=2.0.0-rc.10"
