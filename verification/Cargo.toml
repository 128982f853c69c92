[package]
name = "odra_casper"
version = "0.1.0"
edition = "2021"
publish = false

[dependencies]
casper-types = "=1.5.0"
casper-contract = { version = "=1.4.4", default-features = false }
hex = "=0.4.3"
odra = "=0.9.1"
odra-core = "=0.9.1"
odra-types = "=0.7.1"
convert_case = "=0.5.0"
proc-macro2 = "=1.0.107"
quote = "=1.0.47"
syn = { version = "=1.0.109", features = ["full"] }
casper-engine-test-support = "=2.2.0"
casper-execution-engine = "=2.0.1"
casper-hashing = ">=1.4.0, <1.4.4"
