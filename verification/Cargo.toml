[package]
name = "ws_upload"
version = "0.1.0"
edition = "2021"
publish = false

[dependencies]
uuid = { version = "=0.8.2", features = ["v4"] }
serde = { version = "=1.0.229", features = ["derive"] }
serde_json = "=1.0.154"
actix = "=0.9.0"
actix-web = { version = "=2.0.0", features = ["openssl"] }
actix-web-actors = "=2.0.0"
actix-files = "=0.2.2"
actix-rt = "=1.1.1"
env_logger = "=0.7.1"
openssl = "=0.10.81"
# The random draw behind a token, taken directly so that its failure is a
# value and not a panic; uuid draws through the same crate.
getrandom = "=0.2.17"
# Not used directly: actix-http 1.0 only compiles with this line of chrono.
chrono = "=0.4.19"
