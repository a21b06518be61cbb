[package]
name = "api_ads"
version = "0.1.0"
edition = "2021"
publish = false

[dependencies]
surrealdb = { version = "=1.5.6", default-features = false, features = ["protocol-ws"] }
bb8 = "0.8"
bb8-redis = { version = "0.13", default-features = false }
tokio = { version = "1", features = ["macros", "rt-multi-thread"] }
serde = { version = "1", features = ["derive"] }
bincode = "1"
protobuf = "3"
thiserror = "1"
anyhow = "1"
dotenvy = "0.15"
tracing = "0.1"
tracing-subscriber = { version = "0.3", default-features = false, features = ["fmt", "std"] }
async-trait = "0.1"
futures-util = "0.3"
