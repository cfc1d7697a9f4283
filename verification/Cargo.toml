[package]
name = "lodestone_core"
version = "0.1.0"
edition = "2021"
publish = false

[dependencies]
anyhow = "=1.0.104"
axum = { version = "0.7", default-features = false, features = ["json", "multipart", "tokio", "http1"] }
chrono = "=0.4.45"
dashmap = "=5.5.3"
deno_ast = { version = "=0.53.3", features = ["transpiling"] }
deno_graph = { version = "*", default-features = false }
futures = "0.3"
import_map = "*"
reqwest = { version = "0.12", default-features = false }
semver = { version = "1", features = ["serde"] }
serde = { version = "=1.0.229", features = ["derive"] }
serde_json = "=1.0.154"
sysinfo = { version = "0.30", default-features = false }
tempfile = "=3.27.0"
tokio = { version = "=1.54.1", features = ["rt", "rt-multi-thread", "sync", "time", "fs", "macros", "io-util"] }
tokio-util = { version = "0.7", features = ["io"] }
