[package]
name = "accordion"
version = "0.1.0"
edition = "2021"
publish = false

[dependencies]
coremidi = "0.7"
crossterm = "0.25"
