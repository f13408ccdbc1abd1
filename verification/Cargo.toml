[package]
name = "modbus_service"
version = "0.1.0"
edition = "2021"
publish = false

[dependencies]
async-trait = "0.1"
futures-util = { version = "0.3", default-features = false, features = ["sink"] }
log = "0.4"
tokio = { version = "1", default-features = false, features = ["io-util", "rt", "sync"] }
tokio-util = { version = "0.7", default-features = false, features = ["codec"] }
