[package]
name = "apiary"
version = "0.1.0"
edition = "2021"
publish = false

[dependencies]
bytes = "1"
futures-channel = "0.3"
futures-core = "0.3"
http = "0.2"
http-body = "0.4"
hyper = { version = "0.14", features = ["server", "http1", "tcp"] }
pin-project = "1"
proc-macro-error = "1"
proc-macro2 = "1"
quote = "1"
syn = { version = "1", features = ["full", "extra-traits"] }
thiserror = "1"
tokio = { version = "1", features = ["rt"] }
tower = { version = "0.4", features = ["make", "util"] }
