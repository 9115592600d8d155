[package]
name = "volly_crypto"
version = "0.1.0"
edition = "2021"
publish = false

[dependencies]
fips203 = "0.4"
fips204 = "0.4"
sha3 = "0.10"
rand = "0.8"
rand_chacha = "0.3"
getrandom = "0.2"
wasm-bindgen = "0.2"
js-sys = "0.3"
web-sys = { version = "0.3", features = ["console"] }
