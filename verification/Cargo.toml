[package]
name = "vector_sinks"
version = "0.1.0"
edition = "2021"
publish = false

[dependencies]
serde = { version = "=1.0.229", features = ["derive"] }
serde_json = "=1.0.154"
toml = "=0.5.11"
futures = "=0.3.34"
rusoto_core = { version = "=0.47.0", default-features = false, features = ["rustls", "encoding"] }
rusoto_firehose = { version = "=0.47.0", default-features = false, features = ["rustls"] }
rusoto_sts = { version = "=0.47.0", default-features = false, features = ["rustls"] }
reqwest = { version = "=0.11.27", default-features = false, features = ["json", "rustls-tls"] }
tonic = "=0.5.2"
