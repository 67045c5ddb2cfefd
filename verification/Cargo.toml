[package]
name = "pma_cli"
version = "0.1.0"
edition = "2021"
publish = false

[dependencies]
anyhow = "1"
async-compression = { version = "0.4", features = ["tokio", "gzip", "deflate"] }
bytes = "1"
clap = { version = "4", features = ["derive"] }
itertools = "*"
once_cell = "1"
regex = "1"
reqwest = { version = "0.12", default-features = false }
tokio = { version = "1", features = ["io-util", "rt", "rt-multi-thread", "macros", "fs"] }
