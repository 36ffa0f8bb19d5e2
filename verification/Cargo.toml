[package]
name = "r2d2_odbc"
version = "0.1.0"
edition = "2021"
publish = false

[dependencies]
lazy_static = "=1.5.1"
odbc = "=0.17.0"
odbc-safe = "=0.5.0"
r2d2 = "=0.8.10"
