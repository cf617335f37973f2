[package]
name = "svg_metrics"
version = "0.1.0"
edition = "2021"
publish = false

[dependencies]
bytemuck = "1"
resvg = "=0.29.0"
usvg = "=0.29.0"
usvg-text-layout = "=0.29.0"
pyo3 = "=0.19.2"
thiserror = "=1.0.69"
