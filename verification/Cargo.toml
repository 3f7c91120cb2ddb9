[package]
name = "admin"
version = "0.1.0"
edition = "2021"
publish = false

[dependencies]
prost = "=0.14.4"
bytes = "=1.12.1"
gsfw = "=0.1.2"
serde = { version = "=1.0.229", features = ["derive"] }
serde_json = "=1.0.154"
shell-words = "=1.1.1"
fst = "=0.4.7"
regex = "=1.13.1"
tokio = { version = "=1.54.1", features = ["full"] }
tokio-util = { version = "=0.7.20", features = ["codec"] }
futures = "=0.3.34"
anyhow = "=1.0.104"
clap = { version = "=4.6.7", features = ["derive"] }
requestty = "=0.7.0"
reqwest = { version = "=0.13.5", default-features = false, features = ["json", "blocking"] }
parking_lot = "=0.13.0"
tracing = "=0.1.44"
tracing-subscriber = "=0.3.23"
async-trait = "=0.1.92"
thiserror = "=2.0.21"
tower = "=0.4.13"
dialoguer = "=0.12.0"
