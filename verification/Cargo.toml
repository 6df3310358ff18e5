[package]
name = "async_runtime"
version = "0.1.0"
edition = "2021"
publish = false

[dependencies]
slab = "0.4"
rand = "0.9"
mio = { version = "1", features = ["os-poll", "net"] }
flume = "0.11"
futures-util = { version = "0.3", features = ["io"] }
hyper = { version = "1", features = ["client", "server", "http1", "http2"] }

[dev-dependencies]
http-body-util = "0.1"
