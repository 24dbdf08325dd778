[package]
name = "duckgpt"
version = "0.1.0"
edition = "2021"
publish = false

[dependencies]
rand = "0.8"
chrono = "0.4"
serde_json = "1"
log = "0.4"
dotenv = "0.15"
env_logger = "0.10"
tokio = { version = "1", features = ["macros", "rt-multi-thread"] }
poise = "0.6"
ollama-rs = "0.1"
comfyui-rs = "*"
