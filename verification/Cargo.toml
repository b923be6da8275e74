[package]
name = "nojoin_companion"
version = "0.1.0"
edition = "2021"
publish = false

[dependencies]
anyhow = "1"
axum = "0.7"
chrono = "0.4"
cpal = "0.15"
crossbeam-channel = "0.5"
directories = "5"
fern = "0.7"
hound = "3.5"
log = "0.4"
open = "5"
reqwest = { version = "0.12", features = ["json", "multipart"] }
serde = { version = "1", features = ["derive"] }
serde_json = "1"
tokio = { version = "1", features = ["full"] }
tower-http = { version = "0.5", features = ["cors"] }
