[package]
name = "thread_triage"
version = "0.1.0"
edition = "2021"
publish = false

[dependencies]
dotenv = "0.15"
octocrab = "0.38"
reqwest = { version = "0.12", features = ["json"] }
secrecy = "0.8"
serde = { version = "1", features = ["derive"] }
tokio = { version = "1", features = ["macros", "rt-multi-thread"] }
