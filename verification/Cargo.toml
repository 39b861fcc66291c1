[package]
name = "momento-ddb-interceptor"
version = "0.1.0"
edition = "2021"
publish = false

[dependencies]
aws-sdk-dynamodb = { version = "1", default-features = false }
aws-smithy-runtime-api = { version = "1", features = ["client"] }
aws-smithy-types = { version = "1" }
log = { version = "0.4" }
