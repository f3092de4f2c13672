[package]
name = "vmm_service"
version = "0.1.0"
edition = "2021"
publish = false

[dependencies]
dbs-boot = "0.4.0"
linux-loader = "0.6.0"
thiserror = "1.0"
