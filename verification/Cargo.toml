[package]
name = "square"
version = "0.1.0"
edition = "2021"
publish = false

[dependencies]
anyhow = "1"
async-trait = "0.1"
axum = { version = "0.5", features = ["headers"] }
axum-sessions = "0.3"
diesel = { version = "2", features = ["postgres", "r2d2", "uuid"] }
dotenv = "0.15"
flexi_logger = "0.25"
headers = "0.3"
jsonwebtoken = "8"
log = "0.4"
rand = "0.8"
serde = { version = "1", features = ["derive"] }
serde_json = "1"
sha2 = "0.10"
thiserror = "1"
tokio = { version = "1", features = ["full"] }
tower-http = { version = "0.3", features = ["trace"] }
uuid = "1"
