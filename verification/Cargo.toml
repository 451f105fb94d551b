[package]
name = "dir_watcher"
version = "1.2.0"
edition = "2021"
publish = false

[dependencies]
dusa_collection_utils = "*"
notify = "*"
tokio = { version = "1", features = ["sync", "rt", "rt-multi-thread", "time", "macros"] }
