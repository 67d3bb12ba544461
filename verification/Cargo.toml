[package]
name = "unicode_decomposing"
version = "0.1.0"
edition = "2021"
publish = false

[dev-dependencies]
icu_normalizer = "=1.5.0"
