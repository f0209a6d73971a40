[package]
name = "agent"
version = "0.1.0"
edition = "2021"
publish = false

[dependencies]
whoami = "1"
mac_address = "1"
reqwest = { version = "0.11", features = ["json"] }
tokio = { version = "1", features = ["macros", "rt-multi-thread", "time"] }
serde = { version = "1", features = ["derive"] }
config = "0.13"
env_logger = "0.10"
log = "0.4"
tempfile = "3"
winreg = "0.50"
