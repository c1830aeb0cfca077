[package]
name = "package_installer"
version = "0.1.0"
edition = "2021"
publish = false

[dependencies]
anyhow = "=1.0.104"
zbus = "5"
zbus_polkit = "5"
