[package]
name = "ws63_rf"
version = "0.1.0"
edition = "2021"
publish = false

[dependencies]
smoltcp = { version = "0.12", default-features = false, features = ["medium-ethernet", "proto-ipv4", "proto-dhcpv4", "socket-dhcpv4"] }
critical-section = { version = "1", features = ["std"] }
