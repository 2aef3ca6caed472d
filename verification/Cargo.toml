[package]
name = "rusty_tpch"
version = "0.1.0"
edition = "2021"
publish = false

[dependencies]
duckdb = { version = "=1.10503.1", features = ["vtab-loadable"] }
duckdb-loadable-macros = "=1.10503.1"
libduckdb-sys = { version = "=1.10503.1", features = ["loadable-extension"] }
tokio = { version = "=1.54.1", features = ["rt-multi-thread"] }
tpchgen = "=3.0.0"
tpchgen-cli = "=3.0.0"
