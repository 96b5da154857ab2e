[package]
name = "nstimes"
version = "0.1.0"
edition = "2021"
publish = false

[dependencies]
axum = "*"
chrono = "0.4"
clap = { version = "4", features = ["derive"] }
colored = "*"
dotenv = "0.15"
serde = { version = "1", features = ["derive"] }
serde_json = "1"
tokio = { version = "1", features = ["full"] }
ureq = "3"
urlencoding = "2"
utoipa = "*"
utoipa-swagger-ui = { version = "*", features = ["axum", "vendored"] }
