[package]
name = "introspectardio"
version = "0.1.0"
edition = "2021"
publish = false

[dependencies]
const-crypto = "*"
pinocchio = "*"
pinocchio-system = "*"
pinocchio-token = "*"
