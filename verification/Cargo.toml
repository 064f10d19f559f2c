[package]
name = "canteen_api"
version = "0.1.0"
edition = "2021"
publish = false

[dependencies]
time = "=0.1.45"
rustless = "=0.10.0"
iron = "=0.4.0"
hyper = { version = "=0.9.18", default-features = false }
typemap = "=0.3.3"
rustc-serialize = "=0.3.25"
postgres = "=0.19.14"
postgres-openssl = "0.5"
r2d2 = "=0.8.10"
r2d2_postgres = "=0.18.2"
openssl = "=0.10.82"
