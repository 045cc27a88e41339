[package]
name = "routing_table"
version = "0.1.0"
edition = "2021"
publish = false

[dependencies]
regex = "1"
hyper = "0.11"
syn = "0.11"
quote = "0.3"
