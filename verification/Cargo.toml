[package]
name = "merlin_matrix"
version = "0.1.0"
edition = "2021"
publish = false

[dependencies]
shlex = "=1.3.0"
html-escape = "=0.2.15"
clap = { version = "=4.6.7", features = ["derive"] }
serde = { version = "=1.0.229", features = ["derive"] }
toml = "=1.2.1"
evalexpr = "=13.1.0"
tracing = "=0.1.44"
tokio = { version = "=1.54.1", features = ["rt-multi-thread", "macros", "time"] }
matrix-sdk = { version = "=0.18.0", default-features = false }
matrix-sdk-base = { version = "=0.18.0", default-features = false }
