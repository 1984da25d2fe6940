[package]
name = "iterator_item"
version = "0.1.0"
edition = "2021"
publish = false

[dependencies]
proc-macro2 = "1"
futures = "0.3"
