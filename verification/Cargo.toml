[package]
name = "pong"
version = "0.1.0"
edition = "2021"
publish = false

[dependencies]
web-dom = "=0.1.3"
ref_thread_local = "=0.1.1"
