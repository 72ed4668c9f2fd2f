[package]
name = "hooks_yew"
version = "0.1.0"
edition = "2021"
publish = false

[dependencies]
syn = { version = "=1.0.109", features = ["full"] }
quote = "1"
proc-macro2 = "1"
darling = "=0.14.4"
yew = "=0.20.0"
hooks = "=2.3.0-alpha"
