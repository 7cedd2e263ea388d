[package]
name = "log_forwarder"
version = "0.1.0"
edition = "2021"
publish = false

[dependencies]
serde_json = "*"
axiom-rs = "*"
tokio = { version = "*", features = ["macros", "rt-multi-thread"] }
