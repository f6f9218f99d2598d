[package]
name = "axum_oidc_client"
version = "0.1.0"
edition = "2021"
publish = false

[dependencies]
axum = "=0.8.9"
axum-extra = { version = "=0.12.6", features = ["cookie-private"] }
chrono = "=0.4.45"
futures-util = "=0.3.34"
html-escape = "=0.2.15"
http = "=1.5.0"
pkce-std = "=0.2.1"
reqwest = { version = "=0.12.28", default-features = false, features = ["json", "rustls-tls"] }
serde = { version = "=1.0.229", features = ["derive"] }
serde_html_form = "=0.4.1"
time = "=0.3.55"
tower = "=0.5.3"
tracing = "=0.1.44"
urlencoding = "=2.1.3"
uuid = { version = "=1.29.0", features = ["v4"] }
