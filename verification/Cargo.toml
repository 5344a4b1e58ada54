[package]
name = "transform"
version = "0.1.0"
edition = "2021"
publish = false

[dependencies]
sha256 = { version = "1.6.0", default-features = false }
streamdal-gjson = "=0.8.4-delete-path-fix"
