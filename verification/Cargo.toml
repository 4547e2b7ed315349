[package]
name = "gijiroku21_core"
version = "0.1.0"
edition = "2021"
publish = false

[dependencies]
anyhow = "=1.0.104"
chrono = { version = "=0.4.45", default-features = false, features = ["std", "now", "serde"] }
directories = "=5.0.1"
hound = "=3.5.1"
ndarray = "=0.15.1"
once_cell = "=1.21.4"
onnxruntime = "=0.0.14"
reqwest = { version = "0.12", default-features = false, features = ["rustls-tls"] }
rustfft = "=6.4.1"
serde = { version = "=1.0.229", features = ["derive"] }
serde_json = "=1.0.154"
thiserror = "=1.0.69"
tokenizers = { version = "=0.15.2", default-features = false, features = ["onig"] }
tokio = { version = "=1.54.1", default-features = false, features = ["sync", "time", "rt", "fs"] }
uuid = { version = "=1.29.0", default-features = false, features = ["std", "v4"] }
