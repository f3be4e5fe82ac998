[package]
name = "order_book_stream"
version = "0.1.0"
edition = "2021"
publish = false

[dependencies]
anyhow = "=1.0.104"
bytes = "=1.12.1"
futures-util = { version = "=0.3.34", features = ["sink"] }
http = "=1.5.0"
http-body-util = "=0.1.5"
httparse = "=1.10.1"
hyper-rustls = { version = "=0.27.10", features = ["http2"] }
hyper-util = { version = "=0.1.21", features = ["client-legacy", "http1", "http2", "tokio"] }
prost = "=0.13.5"
rand = "=0.8.8"
rustls = "=0.23.46"
rustls-pki-types = "=1.15.1"
serde = { version = "=1.0.229", features = ["derive"] }
serde_json = "=1.0.154"
serde_with = "=3.24.0"
thiserror = "=2.0.21"
tokio = { version = "=1.54.1", features = ["full"] }
tokio-stream = { version = "=0.1.19", features = ["sync"] }
tokio-tungstenite = { version = "=0.26.2", features = ["rustls-tls-webpki-roots"] }
tokio-util = "=0.7.20"
tonic = "=0.12.3"
tracing = "=0.1.44"
tracing-subscriber = { version = "=0.3.23", features = ["env-filter"] }
tungstenite = "=0.26.2"
webpki-roots = "=0.26.11"
