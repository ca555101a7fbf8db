[package]
name = "crypto_monitor"
version = "0.1.0"
edition = "2021"
publish = false

[dependencies]
argon2 = "0.5"
async-trait = "0.1"
axum = "0.7"
chrono = "=0.4.45"
dotenv = "0.15"
hex = "0.4"
hmac = "0.12"
rand = "0.8"
reqwest = { version = "0.11", default-features = false, features = ["json", "rustls-tls"] }
rusqlite = { version = "0.31", features = ["bundled"] }
rust_decimal = "=1.43.0"
serde = { version = "1", features = ["derive"] }
serde_json = "1"
sha2 = "0.10"
# Not called here: teloxide brings it in, and its 0.1.2 asks for a newer
# compiler than the other crates need.
takecell = "=0.1.1"
teloxide = { version = "0.12", default-features = false, features = ["macros", "rustls", "ctrlc_handler"] }
tokio = { version = "1", features = ["full"] }
tokio-rusqlite = "0.5"
toml = "0.8"
tower-http = { version = "0.5", features = ["cors"] }
tracing = "0.1"
tracing-subscriber = { version = "0.3", features = ["env-filter"] }
