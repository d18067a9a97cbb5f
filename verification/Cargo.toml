[package]
name = "h3on_numa"
version = "0.1.0"
edition = "2021"
publish = false

[dependencies]
core_affinity = "*"
hwlocality = "=1.0.0-alpha.13"
num_cpus = "*"
once_cell = "*"
rayon = "*"
