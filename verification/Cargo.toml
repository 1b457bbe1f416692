[package]
name = "vault_storage"
version = "0.1.0"
edition = "2021"
publish = false

[dependencies]
time = "0.3"
async-trait = "0.1"
error-stack = "0.4"
diesel = { version = "2.1", default-features = false, features = ["postgres_backend", "time"] }
diesel-async = { version = "0.4", features = ["postgres", "deadpool"] }
