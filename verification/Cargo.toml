[package]
name = "protocol_interceptor"
version = "0.1.0"
edition = "2021"
publish = false

[dependencies]
bytes = "0.4"
failure = "0.1"
failure_derive = "0.1"
futures = "0.1"
tokio-io = "0.1"
tokio-proto = "0.1"
