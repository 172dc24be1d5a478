[package]
name = "ew_backup_gen"
version = "0.1.0"
edition = "2021"
publish = false

[dependencies]
chrono = "0.4"
colored = "*"
config = { version = "*", default-features = false, features = ["ini"] }
ctrlc = "3"
dirs = "*"
embed-resource = "*"
fs_extra = "1"
serde = { version = "1", features = ["derive"] }
tokio = { version = "1", features = ["fs", "macros", "rt-multi-thread", "signal", "sync", "time"] }
tokio-cron-scheduler = "*"
