[package]
name = "github-cli"
version = "0.1.0"
edition = "2021"
publish = false

[dependencies]
clap = { version = "4", features = ["derive"] }
fzf-wrapped = "*"
octorust = "*"
tokio = { version = "1", features = ["macros", "rt-multi-thread"] }
