[package]
name = "stepstone"
version = "0.1.0"
edition = "2021"
publish = false

[dependencies]
async-trait = "=0.1.92"
chrono = "=0.4.45"
clap = { version = "=4.6.7", features = ["derive"] }
colored = "=3.1.1"
etcd-client = "=0.7.2"
itertools = "=0.15.0"
opendal = { version = "=0.59.5", features = ["services-s3"] }
serde = { version = "=1.0.229", features = ["derive"] }
serde_json = "=1.0.154"
sqlx = { version = "=0.9.0", default-features = false, features = ["runtime-tokio", "postgres", "mysql"] }
tokio = { version = "=1.54.1", features = ["net", "time", "rt-multi-thread", "macros"] }
toml = "=1.1.8"
uuid = { version = "=1.29.0", features = ["v4"] }
