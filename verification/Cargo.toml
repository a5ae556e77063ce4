[package]
name = "netlink-packet-route"
version = "0.1.0"
edition = "2021"
publish = false

[dependencies]
axerrno = "*"
netlink-packet-core = "0.7.0"
netlink-packet-utils = "0.5.2"
