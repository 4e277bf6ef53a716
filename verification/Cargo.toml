[package]
name = "parquet_view"
version = "0.1.0"
edition = "2021"
publish = false

[dependencies]
base64 = "=0.23.1"
chrono = "=0.4.45"
csv = "=1.4.0"
serde_json = "=1.0.151"
half = "=2.7.1"
datafusion = "=55.1.0"
parquet = "=59.3.0"
arrow = "=59.3.0"
tokio = { version = "=1.53.2", features = ["rt"] }

[dev-dependencies]
tempfile = "=3.27.0"
