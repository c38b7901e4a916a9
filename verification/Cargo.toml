[package]
name = "archive_pipeline"
version = "0.1.0"
edition = "2021"
publish = false

[dependencies]
aes-gcm = "0.10"
argon2 = "0.5"
pbkdf2 = "0.12"
sha2 = "0.10"
subtle = "2"
zeroize = "1"
getrandom = "0.2"
flate2 = "1"
brotli = "*"
zip = { version = "0.6", default-features = false, features = ["deflate"] }
bytes = "1"
wasm-bindgen = "0.2"
wasm-bindgen-futures = "0.4"
js-sys = "0.3"
web-sys = { version = "0.3", features = ["AbortSignal", "Blob", "BlobPropertyBag", "ReadableStream", "ReadableStreamDefaultReader"] }
console_error_panic_hook = "0.1"
symphonia = { version = "0.5", features = ["mp3"] }
hound = "3"
rubato = "0.14"
wee_alloc = "0.4"
