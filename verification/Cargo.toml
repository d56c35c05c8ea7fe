[package]
name = "musicflow_server"
version = "0.1.0"
edition = "2021"
publish = false

[dependencies]
uuid = { version = "1", features = ["v4"] }
md5 = "0.7"
rand = "0.8"
mandarin-to-pinyin = "*"
chrono = "0.4"
serde = { version = "1", features = ["derive"] }
serde_json = "1"
sqlx = { version = "0.7", default-features = false, features = ["sqlite", "runtime-tokio", "macros", "chrono"] }
tokio = { version = "1", features = ["rt-multi-thread", "macros", "sync", "fs"] }
futures = "0.3"
axum = "0.7"
tracing = "0.1"
anyhow = "1"
once_cell = "1"
tokio-util = { version = "0.7", features = ["io"] }
image = { version = "0.25", default-features = false, features = ["jpeg", "png", "gif", "webp"] }
webp = "0.3"
symphonia = "0.5"
walkdir = "2"
sha2 = "0.10"
reqwest = { version = "0.12", default-features = false, features = ["json"] }
