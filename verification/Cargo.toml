[package]
name = "result_tools"
version = "0.1.0"
edition = "2021"
publish = false

[dependencies]
log = "0.4"
slog = "2"
thiserror = "1"
