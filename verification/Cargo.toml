[package]
name = "shorty"
version = "0.1.0"
edition = "2021"
publish = false

[dependencies]
anyhow = "=1.0.104"
arboard = "=3.7.0"
async-trait = "=0.1.92"
bytes = "=1.12.1"
futures-util = "=0.3.34"
gpw = "=0.1.0"
hyper = { version = "=0.14.32", features = ["client", "http1", "http2", "tcp"] }
hyper-tls = "=0.5.0"
image = { version = "=0.25.10", default-features = false, features = ["png"] }
infer = "=0.22.0"
mime_guess = "=2.0.5"
rusoto_core = "=0.48.0"
rusoto_s3 = "=0.48.0"
serde = { version = "=1.0.229", features = ["derive"] }
tokio = { version = "=1.54.1", features = ["rt", "macros", "fs", "io-std", "io-util"] }
tokio-util = { version = "=0.7.20", features = ["io"] }
toml = "=0.8.23"
uuid = { version = "=1.29.0", features = ["v4"] }

[dev-dependencies]
openssl = "=0.10.81"
