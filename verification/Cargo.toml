[package]
name = "league_archive"
version = "0.1.0"
edition = "2021"
publish = false

[dependencies]
clap = "2"
encoding = "0.2"
mysql = "*"
rusqlite = "*"
