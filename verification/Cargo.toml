[package]
name = "cross_seed"
version = "0.1.0"
edition = "2021"
publish = false

[dependencies]
urlencoding = "*"
rss = "*"
reqwest = { version = "*", default-features = false }
tokio = { version = "*", features = ["rt-multi-thread", "macros", "sync"] }
futures = "*"
serde = { version = "*", features = ["derive"] }
quick-xml = { version = "*", features = ["serialize"] }
figment = { version = "*", features = ["toml", "env"] }
lava_torrent = "*"
argmap = "*"
wild = "*"
tracing = "*"
tracing-subscriber = "*"
bytes = "*"
