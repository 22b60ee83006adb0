[package]
name = "sheets_fdw"
version = "0.1.0"
edition = "2021"
publish = false

[dependencies]
serde_json = "=1.0.151"
yup-oauth2 = "=12.1.2"
reqwest = { version = "=0.13.5", default-features = false, features = ["rustls"] }
reqwest-middleware = "=0.5.2"
reqwest-retry = "=0.9.1"
tokio = { version = "=1.53.2", default-features = false, features = ["rt"] }
