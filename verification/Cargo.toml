[package]
name = "vaultchat"
version = "0.1.0"
edition = "2021"
publish = false

[dependencies]
zxcvbn = "3"
unicode-normalization = "0.1"
argon2 = "0.5"
uuid = { version = "1", features = ["v4", "serde"] }
serde = { version = "1", features = ["derive"] }
serde_json = "1"
chrono = { version = "0.4", features = ["serde"] }
axum = { version = "0.7", features = ["ws"] }
sqlx = { version = "0.8", default-features = false, features = ["postgres", "runtime-tokio", "uuid", "chrono", "migrate", "macros"] }
tokio = { version = "1", features = ["full"] }
jsonwebtoken = "9"
tracing = "0.1"
tracing-subscriber = { version = "0.3", features = ["env-filter"] }
dotenvy = "0.15"
anyhow = "1"
reqwest = { version = "0.12", default-features = false, features = ["json"] }
web-sys = { version = "0.3", features = ["Window", "Location", "Crypto", "SubtleCrypto", "CryptoKey", "WebSocket", "MessageEvent"] }
js-sys = "0.3"
wasm-bindgen = "0.2"
wasm-bindgen-futures = "0.4"
indexed_db_futures = "0.6"
