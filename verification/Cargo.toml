[package]
name = "swiftide_pgvector"
version = "0.1.0"
edition = "2021"
publish = false

[dependencies]
anyhow = "=1.0.104"
async-trait = "=0.1.92"
pgvector = { version = "=0.4.0", features = ["sqlx"] }
serde_json = "=1.0.154"
sqlx = { version = "=0.8.6", default-features = false, features = ["json", "postgres", "runtime-tokio", "uuid"] }
swiftide-core = "=0.14.4"
tracing = "=0.1.44"
