[package]
name = "query_ai"
version = "0.1.0"
edition = "2021"
publish = false

[dependencies]
tree-sitter = "*"
tree-sitter-rust = "*"
toml = "*"
walkdir = "2"
serde = { version = "1", features = ["derive"] }
thiserror = "*"
tracing = "0.1"
tracing-subscriber = { version = "0.3", features = ["env-filter"] }
config = { version = "*", default-features = false, features = ["json", "toml"] }
dotenvy = "0.15"
git2 = { version = "*", default-features = false }
