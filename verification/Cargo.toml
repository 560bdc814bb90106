[package]
name = "llama_gateway"
version = "0.1.0"
edition = "2021"
publish = false

[dependencies]
actix-service = "*"
actix-web = "*"
dirs = "*"
dotenv = "*"
futures-util = "*"
ollama-rs = "*"
serde = { version = "*", features = ["derive"] }
tokio = { version = "*", features = ["macros", "rt-multi-thread"] }
