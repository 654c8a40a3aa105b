[package]
name = "temple_schedule"
version = "0.1.0"
edition = "2021"
publish = false

[dependencies]
anyhow = "1"
bincode = "1.3"
clap = { version = "3.2", features = ["derive"] }
headless_chrome = "1"
serde = { version = "1", features = ["derive"] }
serde_json = "1"
term-table = "1.3"
time = { version = "0.3", features = ["macros", "serde", "serde-well-known", "formatting", "parsing", "local-offset"] }
ureq = { version = "2", features = ["json"] }
xlsxwriter = "*"
