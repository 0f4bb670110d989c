[package]
name = "bufstack_backend"
version = "0.1.0"
edition = "2021"
publish = false

[dependencies]
anyhow = "=1.0.104"
async-trait = "=0.1.92"
axum-extra = { version = "=0.12.6", features = ["cookie"] }
clerk-rs = "=0.5.0"
dotenv = "=0.15.0"
jsonwebtoken = "=9.3.1"
prost = "=0.14.4"
sqlx = { version = "=0.9.0", default-features = false, features = ["sqlite", "runtime-tokio", "migrate"] }
tokio = { version = "=1.54.1", features = ["macros", "net", "rt-multi-thread", "time"] }
tokio-stream = { version = "=0.1.19", features = ["net"] }
tonic = "=0.14.6"
tonic-middleware = "=0.4.1"
tonic-prost = "=0.14.6"
tonic-web = "=0.14.6"
tracing = "=0.1.44"
tracing-subscriber = { version = "=0.3.23", features = ["env-filter"] }
