[package]
name = "btc_cli_args"
version = "0.1.0"
edition = "2021"
publish = false

[dependencies]
docopt = "=1.1.1"
bitcoin = "=0.29.2"
