[package]
name = "usvg_remote_resolvers"
version = "0.1.0"
edition = "2021"
publish = false

[dependencies]
usvg = { version = "=0.48.1", default-features = false }
reqwest = { version = "=0.12.28", default-features = false, features = ["blocking"] }
tokio = { version = "=1.53.2", features = ["rt-multi-thread", "sync"] }
futures-util = "=0.3.34"
reqwest-middleware = "=0.4.2"
http-cache-reqwest = { version = "=0.16.0", features = ["manager-cacache", "manager-moka"] }

[dev-dependencies]
mockito = "=1.7.2"
