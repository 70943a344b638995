[package]
name = "commit_assist"
version = "0.1.0"
edition = "2021"
publish = false

[dependencies]
async-openai = { version = "=0.42.2", default-features = false, features = ["chat-completion-types"] }
inquire = "=0.9.4"
reqwest = { version = "=0.13.5", features = ["json"] }
serde = { version = "=1.0.229", features = ["derive"] }
tokio = { version = "=1.54.1", features = ["macros", "process", "rt-multi-thread"] }
which = "=8.0.6"

[dev-dependencies]
regex = "=1.13.1"
