[package]
name = "todo_cli"
version = "0.1.0"
edition = "2021"
publish = false

[dependencies]
dirs = "5"
dotenv = "0.15"
oauth2 = "4"
reqwest = { version = "0.11", default-features = false, features = ["blocking", "rustls-tls"] }
rocket = "0.5"
serde = { version = "1", features = ["derive"] }
serde_json = "1"
serde_yaml = "0.9"
