[package]
name = "musicxml_xsd"
version = "0.1.0"
edition = "2021"
publish = false

[dependencies]
exile = "=0.0.9"
cargo-readme = "=3.2.0"
