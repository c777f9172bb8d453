[package]
name = "logig560"
version = "0.1.0"
edition = "2021"
publish = false

[dependencies]
anyhow = "=1.0.104"
ashpd = { version = "=0.13.13", features = ["screencast"] }
async-trait = "=0.1.92"
clap = { version = "=4.6.7", features = ["derive"] }
directories = "=6.0.0"
futures-util = "=0.3.34"
gstreamer = "=0.23.7"
gstreamer-app = "=0.23.5"
gstreamer-video = "=0.23.6"
hdrhistogram = "=7.6.0"
palette = "=0.7.7"
pipewire = "=0.10.1"
rusb = "=0.9.4"
serde = { version = "=1.0.229", features = ["derive"] }
serde_json = "=1.0.154"
thiserror = "=2.0.21"
tokio = { version = "=1.54.1", features = ["full"] }
tokio-util = "=0.7.20"
toml = "=1.1.8"
tracing = "=0.1.44"
tracing-subscriber = { version = "=0.3.23", features = ["env-filter"] }
