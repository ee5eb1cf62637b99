[package]
name = "wthrr"
version = "1.2.1"
edition = "2021"
publish = false

[dependencies]
anyhow = "=1.0.104"
chrono = { version = "=0.4.45", features = ["unstable-locales", "clock"] }
clap = { version = "=4.6.7", features = ["derive"] }
clap_complete = "=4.6.11"
dialoguer = "=0.11.0"
directories = "=5.0.1"
dirs = "=5.0.1"
futures = "=0.3.34"
regex = "1"
reqwest = { version = "=0.11.27", default-features = false, features = ["json", "rustls-tls"] }
ron = "=0.8.1"
serde = { version = "=1.0.229", features = ["derive"] }
serde_json = "=1.0.154"
tokio = { version = "=1.54.1", features = ["macros", "rt-multi-thread"] }
unicode-width = "=0.1.14"
