[package]
name = "postgrest"
version = "2.0.0"
edition = "2021"
publish = false

[dependencies]
reqwest = "=0.13.5"
rp-postgrest-error = "=0.8.4"

[dev-dependencies]
http = "=1.5.0"
