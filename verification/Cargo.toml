[package]
name = "tlsr82xx"
version = "0.1.0"
edition = "2021"
publish = false

[dependencies]
embedded-hal = "1"
embedded-io = "0.6"
