[package]
name = "user_auth"
version = "0.1.0"
edition = "2021"
publish = false

[dependencies]
anyhow = "1"
async-trait = "0.1"
aws-config = "1"
aws-sdk-cognitoidentityprovider = "1"
aws-sdk-dynamodb = "1"
aws-sdk-secretsmanager = "1"
aws_lambda_events = { version = "0.15", default-features = false, features = ["apigw"] }
base64 = "=0.22.1"
futures = "0.3"
hmac = "=0.12.1"
jsonwebtoken = "=9.3.1"
lambda_runtime = "0.13"
mimalloc = "0.1"
moka = { version = "=0.12.16", features = ["sync"] }
once_cell = "1"
opentelemetry = "0.24"
opentelemetry-aws = "0.12"
opentelemetry_sdk = "0.24"
passwords = "=3.1.19"
regex = "=1.13.1"
reqwest = { version = "0.12", default-features = false, features = ["json", "rustls-tls"] }
serde = { version = "=1.0.229", features = ["derive"] }
serde_json = "=1.0.154"
sha2 = "=0.10.9"
thiserror = "1"
tokio = { version = "1", features = ["macros", "rt-multi-thread", "sync"] }
tracing = "0.1"
tracing-opentelemetry = "0.25"
tracing-subscriber = "0.3"
uuid = { version = "=1.29.0", features = ["v4"] }
