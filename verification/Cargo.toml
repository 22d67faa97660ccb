[package]
name = "todo_highlight"
version = "0.1.0"
edition = "2021"
publish = false

[dependencies]
grep = "*"
walkdir = "*"
serde = { version = "*", features = ["derive"] }
serde_json = "*"
tokio = { version = "*", features = ["rt-multi-thread", "io-std", "macros", "sync"] }
tower-lsp-server = "*"
clap = { version = "*", features = ["derive"] }
