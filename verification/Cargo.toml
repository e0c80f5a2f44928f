[package]
name = "git_repo_name"
version = "0.1.0"
edition = "2021"
publish = false

[dependencies]
path-clean = "*"
git2 = { version = "*", default-features = false }
reqwest = { version = "*", default-features = false, features = ["blocking", "json"] }
serde = { version = "*", features = ["derive"] }
serde_json = "*"
clap = { version = "*", features = ["derive"] }
rust-ini = "*"
dirs = "*"
