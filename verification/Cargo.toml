[package]
name = "rtforth"
version = "0.1.0"
edition = "2021"
publish = false

[dependencies]
hibitset = { version = "0.6", default-features = false }
page_size = "0.6"
getopts = "0.2"
