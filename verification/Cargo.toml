[package]
name = "dart-re-analyzer"
version = "0.1.0"
edition = "2021"
publish = false

[dependencies]
anyhow = "1"
clap = { version = "4", features = ["derive"] }
dirs = "*"
rayon = "1"
regex = "=1.13.1"
serde = { version = "1", features = ["derive"] }
serde_json = "=1.0.154"
thiserror = "*"
tokio = { version = "1", features = ["full"] }
tree-sitter = "*"
tree-sitter-dart = "=0.0.4"
walkdir = "2"
