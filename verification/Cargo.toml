[package]
name = "simfony_ide"
version = "0.1.0"
edition = "2021"
publish = false

[dependencies]
simplicityhl = "=0.4.1"
