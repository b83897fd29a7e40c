[package]
name = "webgwas_backend"
version = "0.1.0"
edition = "2021"
publish = false

[dependencies]
anyhow = "=1.0.104"
aws-config = { version = "1", default-features = false, features = ["behavior-version-latest"] }
aws-sdk-s3 = { version = "1", default-features = false }
hashlru = "=0.11.1"
log = "=0.4.34"
polars = { version = "*", default-features = false, features = ["parquet"] }
sqlx-core = { version = "0.8", default-features = false, features = ["_rt-tokio"] }
sqlx-sqlite = { version = "0.8", default-features = false, features = ["bundled"] }
uuid = "=1.29.0"
