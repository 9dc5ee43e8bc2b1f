[package]
name = "memcached_proto"
version = "0.1.0"
edition = "2021"
publish = false

[dependencies]
fastrand = "*"
semver = "*"
async-trait = "*"
futures-lite = "*"
thiserror = "*"
