[package]
name = "ethereum_balancer_v2"
version = "0.1.0"
edition = "2021"
publish = false

[dependencies]
ethabi = "=18.0.0"
hex = "=0.4.3"
substreams = "=0.5.22"
substreams-ethereum = "=0.9.13"
tycho-substreams = "=0.8.2"
