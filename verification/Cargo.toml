[package]
name = "imagefork"
version = "0.1.0"
edition = "2021"
publish = false

[dependencies]
axum = { version = "0.8", features = ["macros"] }
axum-extra = "*"
axum-prometheus = "*"
base64 = "0.22"
bb8-redis = "*"
figment = { version = "0.10", features = ["env", "toml"] }
image = { version = "0.25", default-features = false, features = ["gif", "jpeg", "png", "webp"] }
mediatype = "*"
metrics = "*"
rand = "0.8"
reqwest = { version = "*", default-features = false, features = ["json"] }
serde = { version = "1", features = ["derive"] }
sha2 = "0.10"
sqlx = { version = "0.8", default-features = false, features = ["postgres", "runtime-tokio"] }
thiserror = "*"
tokio = { version = "1", features = ["macros", "net", "rt-multi-thread", "signal", "sync"] }
tracing = "0.1"
tracing-subscriber = { version = "0.3", features = ["env-filter"] }
