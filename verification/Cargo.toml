[package]
name = "ei_node"
version = "0.1.0"
edition = "2021"
publish = false

[dependencies]
erlang-term = "=1.1.0"
nom = "=7.1.3"
