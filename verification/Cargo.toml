[package]
name = "motion_watch"
version = "0.1.0"
edition = "2021"
publish = false

[dependencies]
image = "*"
rscam = "*"
ev3dev-lang-rust = "*"
