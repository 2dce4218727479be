[package]
name = "shai"
version = "0.1.0"
edition = "2021"
publish = false

[dependencies]
async-openai = { version = "=0.43.0", features = ["chat-completion"] }
clap = { version = "=4.6.7", features = ["derive"] }
colored = "=3.1.1"
dialoguer = "=0.12.0"
dirs = "=7.0.0"
serde = { version = "=1.0.229", features = ["derive"] }
serde_json = "=1.0.154"
tokio = { version = "=1.54.1", features = ["macros", "rt-multi-thread"] }
toml = "=1.1.8"
