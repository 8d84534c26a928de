[package]
name = "random_chains"
version = "0.1.0"
edition = "2021"
publish = false

[dependencies]
clap = "2.33"
rand = "0.7"
rand_distr = "0.2"
GSL = "1"
