[package]
name = "bar_aggregation"
version = "0.1.0"
edition = "2021"
publish = false

[dependencies]
anyhow = "1"
chrono = { version = "0.4", default-features = false, features = ["std"] }
log = "0.4"
sqlx = { version = "0.7", default-features = false, features = ["postgres"] }
