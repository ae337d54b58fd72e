[package]
name = "lojidoc"
version = "0.1.0"
edition = "2021"
publish = false

[dependencies]
colored = "=3.1.1"
clap = "=2.34.0"
threadpool = "=1.8.1"
mdbook = "=0.4.52"
