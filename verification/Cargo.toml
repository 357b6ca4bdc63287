[package]
name = "sage_broker"
version = "0.1.0"
edition = "2021"
publish = false

[dependencies]
sage_mqtt = "*"
nanoid = "*"
log = "*"
futures = "*"
tokio = { version = "*", features = ["rt", "rt-multi-thread", "net", "sync", "time", "io-util"] }

[dev-dependencies]
