[package]
name = "prehnite_core"
version = "0.1.0"
edition = "2021"
publish = false

[dependencies]
fluent-bundle = "=0.16.0"
fluent-syntax = "=0.12.0"
intl-memoizer = "=0.5.3"
unic-langid = "=0.9.6"
sys-locale = "=0.3.2"
chrono = { version = "=0.4.45", default-features = false, features = ["std", "clock", "serde"] }
convert_case = "=0.12.0"
serde = { version = "=1.0.229", features = ["derive"] }
serde_json = "=1.0.154"
zip = { version = "=9.2.2", default-features = false, features = ["zstd"] }
rhai = "=1.27.0"
thiserror = "=2.0.21"
anyhow = "=1.0.104"
strum = { version = "=0.28.0", features = ["derive"] }
sqlx = { version = "=0.9.0", default-features = false, features = ["sqlite", "runtime-tokio", "chrono", "macros", "migrate"] }
tokio = { version = "=1.54.1", features = ["rt", "macros", "fs"] }
cargo-about = "=0.9.3"
krates = "=0.21.2"
spdx = "=0.13.6"
toml = "=1.2.1"
