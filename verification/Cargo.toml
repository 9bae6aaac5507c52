[package]
name = "orphan_witness"
version = "0.1.0"
edition = "2021"
publish = false

[dependencies]
borsh = "1"
