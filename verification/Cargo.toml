[package]
name = "book_manager"
version = "0.1.0"
edition = "2021"
publish = false

[dependencies]
axum = "0.6"
chrono = { version = "0.4", features = ["serde"] }
serde = { version = "1", features = ["derive"] }
sqlx = { version = "0.6", default-features = false, features = ["mysql", "chrono", "runtime-tokio-rustls"] }
tokio = { version = "1", features = ["full"] }
