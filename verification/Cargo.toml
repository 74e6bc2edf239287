[package]
name = "precommit"
version = "0.1.0"
edition = "2021"
publish = false

[dependencies]
anyhow = "1"
bstr = "1"
futures = "0.3"
git2 = { version = "*", default-features = false }
lexopt = "0.3"
smol = "2"
thiserror = "*"
