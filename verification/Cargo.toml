[package]
name = "async_html_rewriter"
version = "0.1.0"
edition = "2021"
publish = false

[dependencies]
atomic-waker = "1"
bytes = "1"
crossbeam-queue = "0.3"
futures-core = "0.3"
http-body = "1"
hyper = { version = "1", default-features = false }
lol_html = "1"
thiserror = "1"
tokio = { version = "1", features = ["io-util"] }
tokio-stream = "0.1"
