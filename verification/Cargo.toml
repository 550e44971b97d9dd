[package]
name = "solkit"
version = "0.1.0"
edition = "2021"
publish = false

[dependencies]
solana-sdk = "1.18"
spl-token = { version = "4", default-features = false, features = ["no-entrypoint"] }
spl-associated-token-account = { version = "2", default-features = false, features = ["no-entrypoint"] }
bs58 = "0.5"
base64 = "0.21"
serde = { version = "1", features = ["derive"] }
axum = "0.7"
tokio = { version = "1", features = ["rt-multi-thread", "macros", "net"] }
