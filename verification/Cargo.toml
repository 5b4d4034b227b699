[package]
name = "coreledger_client"
version = "0.1.0"
edition = "2021"
publish = false

[dependencies]
sha2 = "*"
rand = "*"
hex = "*"
ic-agent = { version = "*", features = ["pem"] }
tokio = { version = "*", features = ["macros", "rt"] }
serde = { version = "*", features = ["derive"] }
serde_json = "*"
serde_bytes = "*"
chrono = "*"
prettytable-rs = "*"
num-bigint = "*"
candid = "*"
