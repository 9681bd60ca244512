[package]
name = "proto_ae"
version = "0.1.0"
edition = "2021"
publish = false

[dependencies]
softfloat = "=1.0.0"
mnist = "=0.6.0"
rand = "=0.7.3"
serde-pickle = "=0.6.3"
