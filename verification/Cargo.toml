[package]
name = "iaam_server"
version = "0.1.0"
edition = "2021"
publish = false

[dependencies]
axum = { version = "=0.8.9", default-features = false, features = ["json", "query"] }
getrandom = "=0.3.4"
rust_decimal = "=1.43.0"
serde = { version = "=1.0.229", features = ["derive"] }
serde_json = "=1.0.154"
sha2 = "=0.10.9"
thiserror = "=2.0.21"
time = { version = "=0.3.55", features = ["formatting", "macros", "parsing", "serde"] }
tracing = "=0.1.44"
utoipa = { version = "=5.5.0", features = ["uuid"] }
uuid = { version = "=1.29.0", features = ["serde", "v4"] }
