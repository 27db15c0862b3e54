[package]
name = "zebra_ledger"
version = "0.1.0"
edition = "2021"
publish = false

[dependencies]
proptest = "1"
tokio = { version = "1", features = ["rt-multi-thread", "signal", "macros", "time"] }
abscissa_core = "0.7"
color-eyre = "0.6"
sha2 = "0.10"
jubjub = "0.10"
