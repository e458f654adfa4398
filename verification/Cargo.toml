[package]
name = "email_news"
version = "0.1.0"
edition = "2021"
publish = false

[dependencies]
actix-web = "=4.18.1"
chrono = { version = "=0.4.45", default-features = false, features = ["clock"] }
config = { version = "=0.13.4", default-features = false, features = ["toml"] }
reqwest = { version = "=0.11.27", default-features = false, features = ["json", "rustls-tls"] }
secrecy = { version = "=0.8.0", features = ["serde"] }
serde = { version = "=1.0.229", features = ["derive"] }
serde-aux = "=4.7.0"
sqlx = { version = "=0.7.4", default-features = false, features = ["runtime-tokio", "tls-rustls", "postgres", "uuid", "chrono"] }
tokio = { version = "=1.54.1", features = ["macros", "rt-multi-thread"] }
tracing = "=0.1.44"
tracing-actix-web = "=0.7.25"
tracing-bunyan-formatter = "=0.3.11"
tracing-log = "=0.1.4"
tracing-subscriber = { version = "=0.3.23", features = ["registry", "env-filter"] }
unicode-segmentation = "=1.13.3"
uuid = { version = "=1.29.0", features = ["v4"] }
validator = "=0.16.1"

[dev-dependencies]
fake = "=2.10.0"
rand = "=0.8.8"
serde_json = "=1.0.154"
