[package]
name = "mgit"
version = "0.1.0"
edition = "2021"
publish = false

[dependencies]
num_cpus = "*"
termcolor = "*"
threadpool = "*"
walkdir = "*"
