[package]
name = "image_registry"
version = "0.1.0"
edition = "2021"
publish = false

[dependencies]
anyhow = "=1.0.104"
borsh = { version = "=1.8.1", features = ["derive"] }
clap = { version = "=4.6.7", features = ["derive"] }
hex = "=0.4.3"
hyli-client-sdk = { version = "=0.14.0", features = ["rest"] }
hyli-contract-sdk = "=0.14.0"
serde = { version = "=1.0.229", features = ["derive"] }
tokio = { version = "=1.54.1", features = ["macros", "rt-multi-thread"] }
