[package]
name = "alpha_stable"
version = "0.1.0"
edition = "2021"
publish = false

[dependencies]
gkquad = "*"
rand = "*"
rand_distr = "*"
spfunc = "*"
thiserror = "*"
