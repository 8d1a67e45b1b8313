[package]
name = "rusty_ai"
version = "0.1.0"
edition = "2021"
publish = false

[dependencies]
textwrap = "=0.16.4"
serde = { version = "=1.0.229", features = ["derive"] }
serde_json = "=1.0.151"
toml = "=0.9.8"
tokio = { version = "=1.53.2", features = ["macros", "rt-multi-thread", "time"] }
async-openai = "=0.28.3"
console = "=0.16.6"
dialoguer = "=0.12.0"
derive_more = { version = "=2.1.1", features = ["from", "deref", "display"] }
