[package]
name = "sistema_ventas"
version = "0.1.0"
edition = "2021"
publish = false

[dependencies]
rand = "0.8"
serde = { version = "1", features = ["derive"] }
serde_json = "1"
chrono = "0.4"
thiserror = "1"
dotenvy = "0.15"
tokio = { version = "1", features = ["rt-multi-thread", "macros"] }
sqlx = { version = "0.7", default-features = false, features = ["sqlite", "runtime-tokio", "chrono"] }
