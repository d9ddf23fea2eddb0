[package]
name = "ocs_custodian"
version = "0.1.0"
edition = "2021"
publish = false

[dependencies]
thiserror = "1"
url = "2"
urlencoding = "2"
