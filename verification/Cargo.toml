[package]
name = "kissat"
version = "0.1.0"
edition = "2021"
publish = false

[dependencies]
logicrs = "=0.5.2"
