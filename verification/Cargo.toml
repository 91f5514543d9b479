[package]
name = "gcloud_core"
version = "0.1.0"
edition = "2021"
publish = false

[dependencies]
http = "1"
prost = "0.13"
prost-types = "0.13"
tokio = { version = "1", features = ["rt", "rt-multi-thread", "time", "sync", "macros"] }
tokio-util = "0.7"
