[package]
name = "make_data_service"
version = "0.1.0"
edition = "2021"
publish = false

[dependencies]
serde_json = "1"
serde = { version = "1", features = ["derive"] }
reqwest = { version = "0.11", default-features = false }
tokio = { version = "1", features = ["full"] }
warp = "0.3"
tonic = "0.11"
futures = "0.3"
dotenv = "0.15"
