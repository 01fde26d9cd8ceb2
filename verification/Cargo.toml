[package]
name = "echo_relay"
version = "0.1.0"
edition = "2021"
publish = false

[dependencies]
fastwebsockets = { version = "*", features = ["upgrade"] }
http-body-util = "*"
hyper = { version = "*", features = ["http1", "server"] }
hyper-util = { version = "*", features = ["tokio"] }
tokio = { version = "*", features = ["full"] }
tower = { version = "*", features = ["util"] }
tower-http = { version = "*", features = ["trace"] }
tracing = "*"
sha1 = "*"
base64 = "*"
