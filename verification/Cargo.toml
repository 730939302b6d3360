[package]
name = "rig_extra"
version = "0.1.0"
edition = "2021"
publish = false

[dependencies]
rand = "=0.10.3"
rig-core = { version = "=0.44.0", features = ["reqwest"] }
backon = "=1.6.0"
tokio = { version = "=1.53.2", features = ["rt-multi-thread", "macros", "sync", "time"] }
reqwest = { version = "=0.13.5", features = ["json", "query"] }
serde = { version = "=1.0.229", features = ["derive"] }
serde_json = "=1.0.151"
schemars = "=1.2.2"
scraper = "=0.27.0"
thiserror = "=2.0.21"
chrono = "=0.4.45"
tyme4rs = "=1.5.0"
