[package]
name = "deployer"
version = "0.1.0"
edition = "2021"
publish = false

[dependencies]
tar = "=0.4.46"
flate2 = "=1.1.10"
serde_json = { version = "=1.0.151", features = ["preserve_order"] }
bollard = { version = "=0.18.1", features = ["buildkit"] }
russh = "=0.46.0"
ssh-key = "=0.6.7"
tokio = { version = "=1.53.2", features = ["macros", "rt-multi-thread", "io-std", "io-util"] }
walkdir = "=2.5.0"
anyhow = "=1.0.104"
tracing = "=0.1.44"
tracing-subscriber = { version = "=0.3.23", features = ["env-filter", "fmt"] }
async-trait = "=0.1.92"
bytes = "=1.12.1"
futures-util = "=0.3.34"
