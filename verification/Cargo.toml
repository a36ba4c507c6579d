[package]
name = "db_sync"
version = "0.1.0"
edition = "2021"
publish = false

[dependencies]
pg_query = "*"
postgres = "*"
clap = { version = "*", features = ["derive"] }
serde = { version = "*", features = ["derive"] }
toml = "*"
ansi_term = "*"
anyhow = "*"
