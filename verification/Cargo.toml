[package]
name = "buckets_mdapi"
version = "0.1.0"
edition = "2021"
publish = false

[dependencies]
chrono = "*"
cueball = "*"
cueball-postgres-connection = "*"
fast-rpc = "*"
postgres = "*"
serde = { version = "*", features = ["derive"] }
serde_json = "*"
slog = "*"
uuid = "*"
