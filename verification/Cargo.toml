[package]
name = "oracode"
version = "0.1.0"
edition = "2021"
publish = false

[dependencies]
regex = "1"
clap = { version = "4", features = ["derive", "env"] }
thiserror = "2"
tokio = { version = "1", features = ["rt-multi-thread", "macros", "fs", "sync"] }
indicatif = "0.17"
oracle = "0.6"
