[package]
name = "webrender"
version = "0.1.0"
edition = "2021"
publish = false

[dependencies]
euclid = "*"
fnv = "1.0"
gleam = "*"
rayon = "*"
thread_profiler = "*"
