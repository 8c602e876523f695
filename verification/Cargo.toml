[package]
name = "randonautics"
version = "0.1.0"
edition = "2021"
publish = false

[dependencies]
argon2 = "0.5"
getrandom = "0.3"
tiny-keccak = { version = "2.0", features = ["shake"] }
rdrand = "0.8"
rand_core = "0.6"
serde = { version = "1", features = ["derive"] }
axum = "0.8"
tokio = { version = "1", features = ["full"] }
tower-http = { version = "0.6", features = ["cors"] }
statrs = "0.18"
