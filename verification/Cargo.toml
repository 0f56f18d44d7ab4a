[package]
name = "poweranalyses"
version = "0.1.0"
edition = "2021"
publish = false

[dependencies]
anyhow = "1"
axum = "*"
libm = "*"
log = "*"
roots = "*"
serde_json = "1"
statrs = "*"
tokio = { version = "1", features = ["macros", "net", "rt-multi-thread"] }
tower-http = { version = "*", features = ["fs"] }
tracing = "*"
tracing-subscriber = "*"
