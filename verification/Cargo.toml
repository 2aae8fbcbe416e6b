[package]
name = "timebank"
version = "0.1.0"
edition = "2021"
publish = false

[dependencies]
postgrest = "*"
reqwest = { version = "*", default-features = false, features = ["json"] }
serde = { version = "*", features = ["derive"] }
serde_json = "*"
tokio = { version = "*", features = ["rt-multi-thread", "macros"] }
tonic = "*"
dotenv = "*"
tracing = "*"
tracing-subscriber = { version = "*", features = ["env-filter"] }
ctrlc = "*"
color-eyre = "*"
