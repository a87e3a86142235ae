[package]
name = "prof_rs"
version = "0.1.0"
edition = "2021"
publish = false

[dependencies]
pprof = { version = "=0.15.0", features = ["flamegraph"] }
chrono = "=0.4.45"
jemalloc-ctl = "=0.5.4"
parking_lot = "=0.12.5"
warp = { version = "=0.4.3", features = ["server"] }
tokio = { version = "=1.53.2", features = ["rt-multi-thread"] }
