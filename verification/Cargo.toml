[package]
name = "blog_generator"
version = "0.1.0"
edition = "2021"
publish = false

[dependencies]
toml = "*"
tera = "*"
