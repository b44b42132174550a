[package]
name = "wave_rs"
version = "0.1.0"
edition = "2021"
publish = false

[dependencies]
phonenumber = "0.3"
async-trait = "0.1"
axum = "0.7"
clap = { version = "4", features = ["derive"] }
comfy-table = "7"
dotenvy = "0.15"
reqwest = { version = "0.12", default-features = false, features = ["json", "rustls-tls"] }
serde = { version = "1", features = ["derive"] }
serde_json = "1"
thiserror = "1"
tokio = { version = "1", features = ["full"] }
tracing = "0.1"
tracing-subscriber = { version = "0.3", features = ["env-filter"] }
