[package]
name = "plane"
version = "0.1.0"
edition = "2021"
publish = false

[dependencies]
url = "=2.5.8"
data-encoding = "=2.11.1"
rand = "=0.8.8"
lru = "=0.12.5"
serde = { version = "=1.0.229", features = ["derive"] }
serde_json = "=1.0.154"
clap = { version = "=4.6.7", features = ["derive"] }
chrono = "=0.4.45"
tokio = { version = "=1.54.1", features = ["rt-multi-thread", "macros", "sync", "time", "net", "io-util", "signal", "fs"] }
http = "1"
pem = "3"
x509-parser = "0.16"
rustls-pemfile = "2"
hyper = { version = "1", features = ["server", "client", "http1"] }
hyper-util = { version = "0.1", features = ["tokio", "server", "client-legacy", "http1"] }
http-body-util = "0.1"
futures-util = "0.3"
tokio-tungstenite = "0.21"
