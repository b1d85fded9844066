[package]
name = "message_relay"
version = "0.1.0"
edition = "2021"
publish = false

[dependencies]
carapax = "*"
clap = { version = "*", features = ["derive"] }
futures-util = "*"
log = "*"
refinery = { version = "*", features = ["tokio-postgres"] }
tokio = { version = "*", features = ["macros", "rt-multi-thread"] }
tokio-postgres = "*"
