[package]
name = "fquack"
version = "0.1.0"
edition = "2021"
publish = false

[dependencies]
seq_io = "=0.3.4"
duckdb = { version = "=1.10506.0", default-features = false, features = ["loadable-extension"] }
duckdb-loadable-macros = "=1.10506.0"
libduckdb-sys = { version = "=1.10506.0", default-features = false, features = ["loadable-extension"] }
