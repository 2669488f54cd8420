[package]
name = "backend"
version = "0.1.0"
edition = "2021"
publish = false

[dependencies]
axum = "0.6"
axum-macros = "0.3"
bb8 = "0.8"
bb8-postgres = "0.8"
envy = "0.4"
serde = { version = "1", features = ["derive"] }
time = { version = "0.3", features = ["serde"] }
tokio = { version = "1", features = ["full"] }
tokio-postgres = { version = "0.7", features = ["with-time-0_3"] }
tower-http = { version = "0.4", features = ["cors"] }
tracing = "0.1"
tracing-subscriber = { version = "0.3", features = ["env-filter"] }
utoipa = { version = "3", features = ["axum_extras", "time"] }
utoipa-swagger-ui = { version = "3", features = ["axum"] }
