[package]
name = "shuttle_service"
version = "0.1.0"
edition = "2021"
publish = false

[dependencies]
tokio = { version = "1", features = ["rt-multi-thread", "time"] }
log = "0.4"
anyhow = "1"
async-trait = "0.1"
rocket = "0.5"
sqlx = { version = "0.8", default-features = false, features = ["postgres", "runtime-tokio"] }
