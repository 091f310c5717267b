[package]
name = "state_processor"
version = "0.1.0"
edition = "2021"
publish = false

[dependencies]
noise = "*"
rand = "0.9"
rand_distr = "0.5"
rayon = "1"
roots = "*"
statrs = "*"
