[package]
name = "oar-core"
version = "0.1.0"
edition = "2021"
publish = false

[dependencies]
serde_json = "1"
sqlx = { version = "0.8", default-features = false, features = ["postgres", "json", "runtime-tokio"] }
thiserror = "2"
