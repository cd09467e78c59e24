[package]
name = "doorknob"
version = "0.1.0"
edition = "2021"
publish = false

[dependencies]
anyhow = "1"
async-openai = { version = "=0.42.1", features = ["audio", "chat-completion", "image"] }
dashmap = "=6.2.1"
poise = "=0.6.2"
serenity = "=0.12.5"
tokio = { version = "=1.53.2", features = ["macros", "rt-multi-thread", "sync"] }
tracing = "0.1"
