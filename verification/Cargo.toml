[package]
name = "branch_prune"
version = "0.1.0"
edition = "2021"
publish = false

[dependencies]
anyhow = "1.0"
dialoguer = { version = "0.11", default-features = false }
git2 = { version = "0.19", default-features = false }
