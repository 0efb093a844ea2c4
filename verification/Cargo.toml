[package]
name = "linkerd_app"
version = "0.1.0"
edition = "2021"
publish = false

[dependencies]
futures = "=0.3.34"
http = "=0.2.12"
indexmap = "=1.9.3"
tokio = { version = "=1.54.1", features = ["macros", "net", "rt", "rt-multi-thread", "sync", "time"] }
tower = { version = "=0.4.13", features = ["util"] }
tracing = "=0.1.44"
