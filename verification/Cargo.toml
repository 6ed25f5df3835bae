[package]
name = "marketplace"
version = "0.1.0"
edition = "2021"
publish = false

[dependencies]
argon2 = "0.5"
dotenvy = "=0.15.7"
rocket = { version = "=0.5.2", features = ["json"] }
sea-orm = { version = "=0.10.7", default-features = false, features = ["macros", "with-chrono", "with-rust_decimal", "sqlx-postgres", "runtime-tokio-rustls"] }
sea-orm-migration = { version = "=0.10.7", default-features = false, features = ["sqlx-postgres", "runtime-tokio-rustls"] }
serde = { version = "=1.0.229", features = ["derive"] }
serde_json = "=1.0.154"
thiserror = "=1.0.69"
