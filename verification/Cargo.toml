[package]
name = "vault"
version = "0.1.0"
edition = "2021"
publish = false

[dependencies]
orca_whirlpools_core = "=2.1.1"
anchor-lang = "=0.29.0"
anchor-spl = { version = "=0.29.0", default-features = false, features = ["token", "associated_token", "mint"] }
whirlpool-cpi = "=0.1.1"
spl-token = "=4.0.0"
spl-memo = "=4.0.0"
