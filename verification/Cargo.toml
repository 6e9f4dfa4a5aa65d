[package]
name = "shaved_iced"
version = "0.1.0"
edition = "2021"
publish = false

[dependencies]
futures = "0.3"
iced_futures = "0.3"
iced_native = "0.4"
pin-project = "1"
thiserror = "1"
