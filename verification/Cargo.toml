[package]
name = "apex_check"
version = "0.1.0"
edition = "2021"
publish = false

[dependencies]
atty = "*"
termcolor = "*"
ureq = "*"
