[package]
name = "weadless"
version = "0.1.0"
edition = "2021"
publish = false

[dependencies]
clap = { version = "4", features = ["derive"] }
ctrlc = "3"
gstreamer = "0.23"
gstreamer-app = "0.23"
gstreamer-video = "0.23"
rustvncserver = "*"
tokio = { version = "1", features = ["rt-multi-thread", "macros", "sync", "net", "time"] }
tracing = "0.1"
tracing-subscriber = { version = "0.3", features = ["env-filter"] }
