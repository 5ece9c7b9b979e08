[package]
name = "upload_gateway"
version = "0.1.0"
edition = "2021"
publish = false

[dependencies]
urlencoding = "=2.1.3"
mime = "=0.3.17"
uuid = { version = "=1.29.0", features = ["v4"] }
base64 = "=0.23.1"
rsa = { version = "=0.9.10", features = ["sha2"] }
sha2 = { version = "=0.10.9", features = ["oid"] }
serde_json = "=1.0.154"
serde_qs = "=1.1.3"
minify = "=1.3.0"
qrcode = "=0.14.1"
image = { version = "=0.25.10", default-features = false, features = ["png"] }
chrono = "=0.4.45"
hyper = { version = "=0.14.32", features = ["full"] }
hyper-rustls = { version = "=0.24.2", features = ["http2"] }
tokio = { version = "=1.54.1", features = ["full"] }
tokio-util = { version = "=0.7.20", features = ["io"] }
futures = "=0.3.34"
async-compression = { version = "=0.4.51", features = ["tokio", "gzip"] }
serde = { version = "=1.0.229", features = ["derive"] }
serde_yaml = "=0.9.34"
structopt = "=0.3.26"
tracing = "=0.1.44"
tracing-subscriber = { version = "=0.3.23", features = ["env-filter"] }
tracing-error = "=0.2.1"
tracing-log = "=0.2.0"
eyre = "=0.6.14"
color-eyre = "=0.6.5"
lazy_static = "=1.5.1"
reqwest = { version = "0.11", default-features = false, features = ["rustls-tls"] }
prometheus = "=0.14.0"
