[package]
name = "my_cms"
version = "0.1.0"
edition = "2021"
publish = false

[dependencies]
tera = { version = "=2.4.0", features = ["preserve_order"] }
sqlx = { version = "=0.9.0", default-features = false, features = ["mysql", "runtime-tokio"] }
axum = "*"
tokio = { version = "*", features = ["full"] }
tower = { version = "*", features = ["util"] }
tower-http = { version = "*", features = ["fs", "trace"] }
hyper = { version = "*", features = ["http1", "server"] }
hyper-util = { version = "*", features = ["server-auto", "tokio"] }
serde = { version = "*", features = ["derive"] }
serde_json = "*"
tracing = "*"
tracing-subscriber = { version = "*", features = ["env-filter"] }
tracing-appender = "*"
dotenvy = "*"
