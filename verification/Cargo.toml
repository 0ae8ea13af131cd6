[package]
name = "inertia_auth"
version = "0.1.0"
edition = "2021"
publish = false

[dependencies]
jwt = "=0.16.0"
hmac = "=0.12.1"
sha2 = "=0.10.9"
rand = "=0.10.3"
serde_json = "=1.0.151"
rs-snowflake = "=0.6.0"
