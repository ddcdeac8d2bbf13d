[package]
name = "astromark"
version = "0.1.0"
edition = "2021"
publish = false

[dependencies]
ahash = "0.8"
bincode = "1"
clap = { version = "4", features = ["cargo"] }
dirs = "*"
i18n-embed = { version = "*", features = ["fluent-system", "desktop-requester"] }
i18n-embed-fl = "*"
open = "*"
rhai = "1"
rust-embed = "*"
serde = { version = "1", features = ["derive"] }
smol_str = "*"
tikv-jemallocator = "*"
tracing = "0.1"
tracing-subscriber = "0.3"
zstd = "*"
