[package]
name = "shoko_external_importer"
version = "0.1.0"
edition = "2021"
publish = false

[dependencies]
anyhow = "1"
clap = { version = "4", features = ["derive", "env"] }
clap-markdown = "*"
crossbeam-channel = "0.5"
dashmap = "5"
diesel = { version = "2", features = ["sqlite", "r2d2"] }
diesel_migrations = { version = "2", features = ["sqlite"] }
globmatch = "*"
log = "0.4"
notify-debouncer-mini = "*"
sd-notify = "0.4"
simplelog = "0.12"
threadpool = "1"
