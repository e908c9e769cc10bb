[package]
name = "rpts"
version = "0.1.0"
edition = "2021"
publish = false

[dependencies]
actix-cors = "0.5"
actix-web = "3"
actix-web-middleware-cognito = "0.3"
actix-web-prom = "0.5"
anyhow = "1"
chrono = { version = "=0.4.45", features = ["serde"] }
dotenv = "0.15"
prost = "0.13"
prost-types = "0.13"
serde = { version = "1", features = ["derive"] }
serde_json = "=1.0.154"
sqlx = { version = "0.6", default-features = false, features = ["postgres", "runtime-tokio-native-tls", "chrono", "uuid", "json"] }
tokio = { version = "1", features = ["macros", "rt-multi-thread"] }
tonic = { version = "0.12", default-features = false, features = ["server", "codegen", "prost"] }
tracing = "0.1"
tracing-subscriber = { version = "0.3", features = ["json", "env-filter", "chrono"] }
uuid = { version = "=1.29.0", features = ["v4", "serde"] }
