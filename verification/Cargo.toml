[package]
name = "values_exec"
version = "0.1.0"
edition = "2021"
publish = false

[dependencies]
arrow = "=59.3.0"
datafusion-common = "=55.2.0"
datafusion-physical-expr = "=55.2.0"
datafusion-expr-common = "=55.2.0"
