[package]
name = "vt_tablegen"
version = "0.1.0"
edition = "2021"
publish = false
