[package]
name = "trace_control"
version = "0.1.0"
edition = "2021"
publish = false

[dependencies]
duckdb = { version = "=1.2.0", features = ["vtab-loadable"] }
duckdb-loadable-macros = "0.1"
lazy_static = "1"
libduckdb-sys = { version = "=1.2.0", features = ["loadable-extension"] }
pyroscope = "0.5"
pyroscope_pprofrs = "0.2"
