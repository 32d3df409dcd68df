[package]
name = "measurer"
version = "0.1.0"
edition = "2021"
publish = false

[dependencies]
candid = "=0.8.4"
hex = "=0.4.3"
ic-cdk = "=0.6.10"
ic-cdk-macros = "=0.6.10"
ic-web3 = "=0.1.7"
sha2 = "=0.10.9"
