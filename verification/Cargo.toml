[package]
name = "cryptoserver"
version = "0.1.0"
edition = "2021"
publish = false

[dependencies]
hmac = "0.10"
sha2 = "0.9"
murmurhash32 = "0.2"
async-std = "1"
async-h1 = "2"
http-types = "2"
log = "0.4"
env_logger = "0.8"
