[package]
name = "dyndnsd"
version = "0.1.0"
edition = "2021"
publish = false

[dependencies]
async-trait = "0.1"
clokwerk = "*"
env_logger = "*"
envconfig = "*"
log = "0.4"
pnet = "*"
reqwest = { version = "0.12", features = ["json"] }
serde = { version = "1", features = ["derive"] }
serde_json = "1"
thiserror = "*"
tokio = { version = "1", features = ["macros", "rt-multi-thread", "sync"] }
uuid = { version = "1", features = ["v4"] }
