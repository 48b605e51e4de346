[package]
name = "netx_msgclient_lib"
version = "0.1.0"
edition = "2021"
publish = false

[dependencies]
serde_json = "=1.0.151"
serde = { version = "=1.0.229", features = ["derive"] }
netxclient = "=3.0.1"
tokio = { version = "=1.53.2", features = ["rt-multi-thread", "time", "net", "macros"] }
interoptopus = "=0.14.27"
anyhow = "=1.0.104"
log = "=0.4.34"
env_logger = "=0.11.11"
async-trait = "=0.1.92"
