[package]
name = "quickjs_runtime"
version = "0.1.0"
edition = "2021"
publish = false

[dependencies]
libquickjs-sys = "0.9"
log = "0.4"
thread-id = "3.3"
