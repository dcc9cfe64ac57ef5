[package]
name = "lcpgn"
version = "0.1.0"
edition = "2021"
publish = false

[dependencies]
shakmaty = "0.16"
pgn-reader = "0.15"
flatbuffers = "0.6"
flate2 = "1"
structopt = "0.3"
