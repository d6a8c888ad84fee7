[package]
name = "sl"
version = "0.1.0"
edition = "2021"
publish = false

[dependencies]
owo-colors = "*"
clap = "*"
ctrlc = "*"
dirs = "*"
flexi_logger = "*"
log = "*"
