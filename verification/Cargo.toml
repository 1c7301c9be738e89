[package]
name = "memdiag"
version = "0.1.0"
edition = "2021"
publish = false

[dependencies]
jni = "=0.22.4"
tikv-jemalloc-ctl = { version = "=0.7.0", features = ["stats", "profiling"] }
tikv-jemallocator = { version = "=0.7.0", features = ["stats", "profiling"] }
