[package]
name = "xor_api"
version = "0.1.0"
edition = "2021"
publish = false

[dependencies]
anyhow = "=1.0.104"
async-graphql = { version = "=4.0.16", features = ["chrono", "dataloader"] }
async-graphql-axum = "=4.0.16"
async-trait = "=0.1.92"
axum = { version = "=0.5.17", features = ["ws"] }
biscuit = "=0.5.0"
chrono = { version = "=0.4.45", features = ["serde"] }
fake = { version = "=2.10.0", features = ["derive", "chrono"] }
futures = "=0.3.34"
http = "=0.2.12"
hyper = { version = "=0.14.32", features = ["full"] }
log = "=0.4.35"
num = "=0.3.1"
oso = "=0.26.4"
sea-orm = { version = "=0.10.7", default-features = false, features = ["macros", "with-chrono", "runtime-tokio-rustls", "sqlx-postgres"] }
serde = { version = "=1.0.229", features = ["derive"] }
serde_json = "=1.0.154"
thiserror = "=1.0.69"
tokio = { version = "=1.54.1", features = ["full"] }
tokio-stream = "=0.1.19"
tower-http = { version = "=0.3.5", features = ["trace"] }
tracing = "=0.1.44"
tracing-subscriber = { version = "=0.3.23", features = ["env-filter"] }

[dev-dependencies]
ring = "=0.16.20"
