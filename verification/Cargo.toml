[package]
name = "pb-jelly-gen"
version = "0.1.0"
edition = "2021"
publish = false

[dependencies]
include_dir = "*"
tempfile = "3"
walkdir = "2"
