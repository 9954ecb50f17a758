[package]
name = "prost_validate_rules"
version = "0.1.0"
edition = "2021"
publish = false

[dependencies]
regex = "=1.13.1"
time = "=0.3.55"
prost = "=0.14.4"
prost-types = "=0.14.4"
prost-reflect = "=0.16.5"
prost-build = "0.14"
anyhow = "=1.0.104"
thiserror = "=2.0.21"
