[package]
name = "sqlparser_mysql"
version = "0.1.0"
edition = "2021"
publish = false

[dependencies]
