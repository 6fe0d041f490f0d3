[package]
name = "a-train"
version = "0.1.0"
edition = "2021"
publish = false

[dependencies]
anyhow = "=1.0.104"
async-trait = "=0.1.92"
clap = { version = "=3.2.25", features = ["derive"] }
color-eyre = "=0.6.5"
colored = "=2.2.0"
eyre = "=0.6.14"
flate2 = "=1.1.10"
futures = "=0.3.34"
once_cell = "=1.21.4"
reqwest = { version = "=0.11.27", default-features = false, features = ["json"] }
serde = { version = "=1.0.229", features = ["derive"] }
thiserror = "=1.0.69"
tokio = { version = "=1.54.1", features = ["full"] }
toml = "=0.5.11"
tower = { version = "=0.4.13", features = ["buffer", "util"] }
tracing = "=0.1.44"
tracing-subscriber = { version = "=0.3.23", features = ["env-filter"] }
xshell = "=0.1.17"
