[package]
name = "mini_rdk"
version = "0.1.0"
edition = "2021"
publish = false

[dependencies]
anyhow = "1"
bytes = "1"
futures-lite = "1"
h2 = "0.3"
hyper = "0.14"
log = "0.4"
prost = "0.11"
prost-types = "0.11"
smol = "1"
tokio = { version = "1", default-features = false, features = ["net"] }
