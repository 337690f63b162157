[package]
name = "finance_tracker"
version = "0.1.0"
edition = "2021"
publish = false

[dependencies]
tokio = { version = "=1.54.1", features = ["sync", "time", "rt-multi-thread", "macros", "net"] }
uuid = { version = "=1.29.0", features = ["v4"] }
chrono = { version = "=0.4.45", default-features = false, features = ["clock", "std"] }
regex = "=1.13.1"
bcrypt = "=0.19.3"
jsonwebtoken = "=9.3.1"
serde = { version = "=1.0.229", features = ["derive"] }
serde_json = "=1.0.154"
axum = { version = "=0.8.9", features = ["ws"] }
futures = "=0.3.34"
futures-util = "=0.3.34"
thiserror = "=2.0.21"
dotenvy = "=0.15.7"
color-eyre = "=0.6.5"
async-trait = "=0.1.92"
azure_core = "=1.1.0"
azure_data_cosmos = { version = "=1.0.0", features = ["key_auth"] }
