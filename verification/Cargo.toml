[package]
name = "payment_escrow"
version = "0.1.0"
edition = "2021"
publish = false

[dependencies]
ink = "*"
