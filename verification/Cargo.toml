[package]
name = "linkerd_middleware"
version = "0.1.0"
edition = "2021"
publish = false

[dependencies]
async-trait = "0.1"
bytes = "1"
futures = "0.3"
http = "0.2"
http-body = "0.4"
hyper = { version = "0.14", features = ["full"] }
indexmap = "1"
linkerd2-proxy-api = { version = "0.6", features = ["destination"] }
pin-project = "1"
prost-types = "0.6"
quanta = "0.5"
rand = "0.7"
regex = "1"
tokio = { version = "1", features = ["full"] }
tokio-rustls = "0.23"
tonic = "0.8"
tower = { version = "0.4", features = ["full"] }
tracing = "0.1"
webpki = { version = "0.22", features = ["alloc"] }
