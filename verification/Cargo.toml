[package]
name = "form_fields"
version = "0.1.0"
edition = "2021"
publish = false

[dependencies]
maud = "*"
validator = "*"
