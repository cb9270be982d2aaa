[package]
name = "guild_steward"
version = "0.1.0"
edition = "2021"
publish = false

[dependencies]
chrono = { version = "=0.4.45", default-features = false, features = ["clock", "std"] }
dotenv = "=0.15.0"
indexmap = { version = "=2.14.2", features = ["serde"] }
poise = "=0.6.2"
reqwest = { version = "=0.12.28", default-features = false }
serde = { version = "=1.0.229", features = ["derive"] }
serenity = { version = "=0.12.5", default-features = false, features = ["builder", "cache", "chrono", "client", "gateway", "http", "model", "rustls_backend", "utils"] }
songbird = "0.5"
tokio = { version = "=1.54.1", features = ["macros", "rt-multi-thread", "time"] }
toml = { version = "=0.8.23", default-features = false, features = ["parse"] }
