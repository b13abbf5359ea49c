[package]
name = "ntex"
version = "0.1.0"
edition = "2021"
publish = false

[dependencies]
base64 = "=0.23.1"
brotli2 = "=0.3.2"
cookie = { version = "=0.18.2", features = ["percent-encode"] }
flate2 = "=1.1.10"
httparse = "=1.10.1"
httpdate = "=1.0.3"
log = "=0.4.35"
mime = "=0.3.17"
nanorand = "=0.8.0"
ntex-bytes = "1"
ntex-http = "=1.3.1"
ntex-httparse = "=2.1.0"
percent-encoding = "=2.3.2"
serde = { version = "=1.0.229", features = ["derive"] }
serde_json = "=1.0.154"
serde_urlencoded = "=0.7.1"
slab = "0.4"
