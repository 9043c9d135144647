[package]
name = "rpxy"
version = "0.1.0"
edition = "2021"
publish = false

[dependencies]
wildcard = "=0.3.0"
url = "=2.5.8"
sha2 = "=0.10.9"
base64 = "=0.22.1"
thiserror = "=2.0.21"
clap = "=4.6.7"
hot_reload = { version = "=0.3.6", features = ["file-reloader"] }
async-trait = "=0.1.92"
tokio = { version = "=1.54.1", features = ["fs", "rt"] }
toml = "=1.1.8"
serde = { version = "=1.0.229", features = ["derive"] }
