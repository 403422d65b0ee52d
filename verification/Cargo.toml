[package]
name = "hasurautils"
version = "0.1.0"
edition = "2021"
publish = false

[dependencies]
Inflector = "*"
clap = { version = "*", features = ["derive"] }
console = "*"
dotenv = "*"
reqwest = { version = "*", default-features = false, features = ["json"] }
serde = { version = "*", features = ["derive"] }
serde_json = "*"
tokio = { version = "*", features = ["macros", "rt-multi-thread"] }
