[package]
name = "jagad-shalawat"
version = "0.1.0"
edition = "2021"
publish = false

[dependencies]
actix-web = { version = "4", default-features = false, features = ["macros", "cookies", "secure-cookies", "compress-gzip"] }
actix-session = { version = "0.10", features = ["cookie-session"] }
actix-files = "0.6"
actix-multipart = "0.7"
futures-util = "0.3"
ammonia = "4"
argon2 = "0.5"
chrono = { version = "0.4", default-features = false, features = ["std", "clock", "serde"] }
comrak = { version = "*", default-features = false }
dotenvy = "0.15"
env_logger = { version = "0.11", default-features = false }
hex = "0.4"
image = { version = "0.25", default-features = false, features = ["webp"] }
lettre = { version = "0.11", default-features = false, features = ["builder", "smtp-transport", "rustls-tls"] }
log = "0.4"
md-5 = "0.10"
redis = { version = "0.27", features = ["tokio-comp", "connection-manager"] }
reqwest = { version = "0.12", default-features = false, features = ["json", "rustls-tls"] }
serde = { version = "1", features = ["derive"] }
serde_json = "1"
slug = "0.1"
sqlx = { version = "0.8", default-features = false, features = ["mysql", "runtime-tokio", "chrono", "json", "macros", "derive"] }
tera = { version = "1", default-features = false }
tokio = { version = "1", features = ["sync", "rt", "macros"] }
url = "2"
urlencoding = "2"
uuid = { version = "1", features = ["v4"] }
