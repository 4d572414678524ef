[package]
name = "ats_plugin"
version = "0.1.0"
edition = "2021"
publish = false

[dependencies]
int-enum = "0.5"
once_cell = "1"
