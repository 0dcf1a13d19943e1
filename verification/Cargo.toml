[package]
name = "idrac_cli"
version = "0.1.0"
edition = "2021"
publish = false

[dependencies]
clap = { version = "4", features = ["derive"] }
config = "0.14"
reqwest = { version = "0.12", features = ["json"] }
serde = { version = "1", features = ["derive"] }
serde_derive = "1"
tokio = { version = "1", features = ["rt-multi-thread", "macros"] }
