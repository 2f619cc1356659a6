[package]
name = "mordhau_browser"
version = "0.1.0"
edition = "2021"
publish = false

[dependencies]
tokio = { version = "=1.54.1", features = ["net", "time", "rt", "rt-multi-thread", "sync"] }
futures = { version = "=0.3.34" }
druid = { version = "=0.8.3", features = ["im"] }
