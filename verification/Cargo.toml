[package]
name = "dorisctl"
version = "0.1.0"
edition = "2021"
publish = false

[dependencies]
anyhow = "1"
clap = { version = "4", features = ["derive", "env"] }
colored = "2"
comfy-table = "7"
csv = "1"
dialoguer = "0.11"
dirs = "5"
indicatif = "0.17"
rustyline = "14"
serde = { version = "1", features = ["derive"] }
serde_json = "1"
similar = "2"
sqlx = { version = "0.8", default-features = false, features = ["mysql", "runtime-tokio", "tls-rustls"] }
tokio = { version = "1", features = ["macros", "rt-multi-thread"] }
toml = "0.8"
ureq = { version = "2", features = ["json"] }
