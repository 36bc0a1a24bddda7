[package]
name = "rls"
version = "0.1.0"
edition = "2021"
publish = false

[dependencies]
jsonrpc-core = "=18.0.0"
languageserver-types = "=0.54.0"
racer = "=2.0.14"
rls-analysis = "=0.18.3"
rls-span = "=0.5.4"
rls-vfs = "=0.8.0"
serde = { version = "=1.0.229", features = ["derive"] }
serde_json = "=1.0.154"
url = "=1.7.2"
