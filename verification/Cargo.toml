[package]
name = "nn_fuzz"
version = "0.1.0"
edition = "2021"
publish = false

[dependencies]
miniz_oxide = "*"
postcard = { version = "1", features = ["alloc"] }
serde = { version = "1", features = ["derive"] }
serde_json = "1"
tokio = { version = "1", features = ["rt", "net", "sync", "io-util", "time", "macros"] }
clap = { version = "4", features = ["derive"] }
