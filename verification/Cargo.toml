[package]
name = "gtfs_parser"
version = "0.1.0"
edition = "2021"
publish = false

[dependencies]
chrono = "0.4"
polars = { version = "*", default-features = false, features = ["csv"] }
sqlx = { version = "0.8", default-features = false, features = ["postgres", "runtime-tokio", "chrono"] }
tokio = { version = "1", features = ["macros", "rt-multi-thread"] }
reqwest = { version = "0.12", default-features = false, features = ["blocking", "rustls-tls"] }
zip = { version = "2", default-features = false, features = ["deflate"] }
dotenvy = "0.15"
anyhow = "1"
