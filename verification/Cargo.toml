[package]
name = "interprocess_typed"
version = "0.1.0"
edition = "2021"
publish = false

[dependencies]
async-io-typed = "=1.0.4"
bincode = "=1.3.3"
futures-util = { version = "=0.3.34", features = ["sink"] }
futures-io = "=0.3.34"
interprocess = { version = "=1.2.1", features = ["tokio_support"] }
serde = "=1.0.229"
tempfile = "=3.27.0"
thiserror = "=1.0.69"
uuid = { version = "=1.29.0", features = ["v4"] }

[dev-dependencies]
tokio = { version = "=1.54.1", features = ["rt", "net", "time"] }
serde = { version = "=1.0.229", features = ["derive"] }
