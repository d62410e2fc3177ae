[package]
name = "ql_raster"
version = "0.1.0"
edition = "2021"
publish = false

[dependencies]
snmp = "0.2"
