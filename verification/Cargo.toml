[package]
name = "color_eyre"
version = "0.1.0"
edition = "2021"
publish = false

[dependencies]
ansi_term = "*"
backtrace = "*"
color-spantrace = "*"
tracing-error = "*"
eyre = "*"
once_cell = "*"

[dev-dependencies]
tracing-subscriber = "*"
