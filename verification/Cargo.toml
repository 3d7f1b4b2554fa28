[package]
name = "payment"
version = "0.1.0"
edition = "2021"
publish = false

[dependencies]
chrono = "*"
deadpool-postgres = "*"
http = "*"
reqwest = { version = "*", default-features = false, features = ["json", "rustls-tls"] }
sea-query = "*"
sea-query-postgres = { version = "*", features = ["with-uuid", "with-chrono"] }
serde = { version = "*", features = ["derive"] }
serde_json = "*"
tokio = { version = "*", features = ["rt", "macros"] }
uuid = "=1.27.0"
