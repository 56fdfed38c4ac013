[package]
name = "websocket_core"
version = "0.1.0"
edition = "2021"
publish = false

[dependencies]
hyper = "0.10"
url = "1.7"
native-tls = "0.2"
net2 = "0.2"
openssl = "0.10"
futures = "0.1"
