[package]
name = "race_of_sloths"
version = "0.1.0"
edition = "2021"
publish = false

[dependencies]
chrono = "=0.4.45"
serde = { version = "=1.0.229", features = ["derive"] }
serde_json = "=1.0.154"
anyhow = "=1.0.104"
tracing = "=0.1.44"
octocrab = "=0.40.0"
reqwest = { version = "=0.12.28", features = ["json", "multipart"] }
tokio = { version = "=1.54.1", features = ["full"] }
usvg = "=0.49.0"
resvg = "=0.49.0"
tiny-skia = "=0.12.0"
base64 = "=0.22.1"
