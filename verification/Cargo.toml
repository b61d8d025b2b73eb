[package]
name = "msgraph_mail"
version = "0.1.0"
edition = "2021"
publish = false

[dependencies]
base64 = "=0.23.1"
html-escape = "=0.2.15"
serde = { version = "=1.0.229", features = ["derive"] }
serde_json = "=1.0.151"
chrono = { version = "=0.4.45", features = ["serde"] }
httpclient = "=0.24.1"
httpclient_oauth2 = "=0.6.0"
futures = "=0.3.34"
