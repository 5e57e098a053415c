[package]
name = "filebelt_database"
version = "0.1.0"
edition = "2021"
publish = false

[dependencies]
serde = { version = "=1.0.229", features = ["derive"] }
serde_json = { version = "=1.0.154", features = ["raw_value"] }
sqlx = { version = "=0.8.6", default-features = false, features = ["json", "migrate", "postgres", "runtime-tokio", "uuid"] }
thiserror = "=2.0.21"
uuid = { version = "=1.29.0", features = ["v4"] }
