[package]
name = "meme_catalog"
version = "0.1.0"
edition = "2021"
publish = false

[dependencies]
sha2 = "0.10"
mime_guess = "2"
fastrand = "2"
moka = { version = "0.12", features = ["sync"] }
image = { version = "0.25", default-features = false, features = ["png", "jpeg", "gif", "webp", "bmp"] }
time = { version = "0.3", features = ["formatting"] }
axum = "0.7"
tokio = { version = "1", features = ["full"] }
notify = "6"
parking_lot = "0.12"
prometheus = "0.13"
lazy_static = "1"
serde = { version = "1", features = ["derive"] }
serde_json = "1"
serde_yaml = "0.9"
thiserror = "1"
tower-http = { version = "0.5", features = ["trace", "cors"] }
tracing = "0.1"
tracing-appender = "0.2"
tracing-subscriber = { version = "0.3", features = ["env-filter"] }
utoipa = { version = "4", features = ["axum_extras"] }
utoipa-swagger-ui = { version = "7", features = ["axum"] }
