[package]
name = "bibe"
version = "0.1.0"
edition = "2021"
publish = false

[dependencies]
axum = { version = "0.6", features = ["ws", "headers"] }
chrono = { version = "0.4", features = ["serde"] }
color-eyre = "0.6"
futures = "0.3"
futures-util = { version = "0.3", features = ["sink"] }
geo-types = { version = "0.7", features = ["serde"] }
http = "0.2"
reqwest = { version = "0.11", default-features = false, features = ["json"] }
rppal = "0.14"
serde = { version = "1", features = ["derive"] }
serde_json = "1"
sqlx = { version = "0.7", default-features = false, features = ["runtime-tokio", "postgres", "uuid", "chrono", "macros", "migrate"] }
strum = { version = "0.25", features = ["derive"] }
thiserror = "1"
tokio = { version = "1", features = ["full"] }
tokio-tungstenite = "0.20"
tower-http = { version = "0.4", features = ["cors", "trace"] }
tracing = "0.1"
url = "2"
uuid = { version = "1", features = ["serde", "v4"] }
