[package]
name = "pincher-core"
version = "0.2.0"
edition = "2021"
publish = false

[dependencies]
uuid = { version = "1", features = ["v4", "serde"] }
sha2 = "0.10"
blake3 = "1"
zstd = "0.13"
tar = "0.4"
ternary-graph = "*"
serde = { version = "1", features = ["derive"] }
serde_json = "1"
anyhow = "1"
thiserror = "1"
chrono = "0.4"
clap = { version = "4", features = ["derive"] }
colored = "2"
tokio = { version = "1", features = ["full"] }
tracing = "0.1"
tracing-subscriber = { version = "0.3", features = ["env-filter"] }
rusqlite = { version = "*", features = ["bundled"] }
gethostname = "*"
num_cpus = "1"
rayon = "1"
dashmap = "*"
