[package]
name = "wimc_client"
version = "0.1.0"
edition = "2021"
publish = false

[dependencies]
wbdl = "*"
wimcm = "=0.2.6"
wjp = "*"
