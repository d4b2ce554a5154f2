[package]
name = "yolodoro"
version = "0.1.0"
edition = "2021"
publish = false

[dependencies]
ctrlc = "3"
mac-notification-sys = "0.3"
quicli = "0.4"
structopt = "0.2"
