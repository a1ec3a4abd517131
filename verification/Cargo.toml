[package]
name = "af_postgres"
version = "0.1.0"
edition = "2021"
publish = false

[dependencies]
anyhow = "1"
clap = "4"
dialoguer = "0.11"
dotenv = "0.15"
md5 = "0.7"
refinery = { version = "0.8", features = ["tokio-postgres"] }
tokio = { version = "1", features = ["macros", "rt-multi-thread"] }
tokio-postgres = { version = "0.7", features = ["with-uuid-1"] }
tracing = "0.1"
uuid = "1"
