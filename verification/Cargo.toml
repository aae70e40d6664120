[package]
name = "ogham"
version = "0.1.0"
edition = "2021"
publish = false

[dependencies]
http = "*"
prost = "*"
serde = "*"
tonic = "*"
tonic-prost = "*"
