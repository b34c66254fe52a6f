[package]
name = "ant_walker"
version = "0.1.0"
edition = "2021"
publish = false

[dependencies]
boolvec = "*"
png = "*"
image = "*"
