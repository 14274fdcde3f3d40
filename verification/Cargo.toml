[package]
name = "gbf_recruitment"
version = "0.1.0"
edition = "2021"
publish = false

[dependencies]
chrono = "0.4"
dateparser = "0.2"
regex = "1"
serde = { version = "1", features = ["derive"] }
serde_json = "1"
serenity = "0.12"
poise = "0.6"
sea-orm = { version = "1", default-features = false, features = ["macros", "with-chrono", "sqlx-postgres", "runtime-tokio-rustls"] }
tokio = { version = "1", features = ["full"] }
tracing = "0.1"
tracing-subscriber = "0.3"
log = "0.4"
futures = "0.3"
async-trait = "0.1"
dotenv = "0.15"
