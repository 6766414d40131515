[package]
name = "wifi_captive"
version = "0.1.0"
edition = "2021"
publish = false

[dependencies]
ascii = "1"
chrono = { version = "0.4", default-features = false, features = ["clock", "std"] }
dbus = { version = "0.9", features = ["vendored"] }
env_logger = "0.10"
futures-util = "0.3"
hyper = { version = "0.14", features = ["server", "http1", "tcp", "runtime"] }
log = "0.4"
serde = { version = "1", features = ["derive"] }
serde_json = "1"
structopt = "0.3"
tokio = { version = "1", features = ["rt-multi-thread", "macros", "net", "time", "sync", "signal"] }
