[package]
name = "cynic_codegen"
version = "0.1.0"
edition = "2021"
publish = false

[dependencies]
graphql-parser = "=0.2.3"
Inflector = "=0.11.4"
syn = "=2.0.119"
proc-macro2 = "=1.0.107"
