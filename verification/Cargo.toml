[package]
name = "dynhdl"
version = "0.1.0"
edition = "2021"
publish = false

[dependencies]
serde_json = { version = "*", features = ["arbitrary_precision"] }
clap = { version = "*", features = ["derive"] }
tokio = { version = "*", features = ["macros", "rt-multi-thread"] }
log = "*"
simple_logger = "*"
aws-config = "*"
aws-sdk-dynamodb = "*"
exitcode = "*"
