[package]
name = "ad9361-embedded"
version = "0.1.0"
edition = "2021"
publish = false

[dependencies]
arbitrary-int = "=2.2.0"
axi-ad9361 = "*"
embedded-hal = "=1.0.0"
thiserror = "=2.0.21"
