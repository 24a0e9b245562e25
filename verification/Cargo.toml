[package]
name = "rideboard"
version = "0.1.0"
edition = "2021"
publish = false

[dependencies]
actix-session = { version = "=0.10.1", features = ["cookie-session"] }
actix-web = { version = "=4.18.1", default-features = false, features = ["macros", "cookies"] }
anyhow = "=1.0.104"
base64 = "=0.22.1"
chrono = { version = "=0.4.45", features = ["serde"] }
clap = { version = "=4.6.7", features = ["derive"] }
futures-util = "=0.3.34"
include_dir = "=0.7.4"
log = "=0.4.34"
mime_guess = "=2.0.5"
oauth2 = "=4.4.2"
redis = { version = "=0.26.1", features = ["aio", "tokio-comp"] }
redis-work-queue = "=0.3.0"
reqwest = { version = "=0.11.27", default-features = false, features = ["json", "rustls-tls"] }
serde = { version = "=1.0.229", features = ["derive"] }
serde_json = "=1.0.154"
sqlx = { version = "=0.8.6", default-features = false, features = ["runtime-tokio", "postgres", "chrono", "derive"] }
tokio = { version = "=1.54.1", features = ["macros", "rt-multi-thread"] }
utoipa = { version = "=5.5.0", features = ["actix_extras", "chrono"] }
utoipa-swagger-ui = { version = "9", features = ["actix-web", "vendored"] }
