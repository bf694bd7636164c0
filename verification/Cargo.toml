[package]
name = "warden_vault"
version = "0.1.0"
edition = "2021"
publish = false

[dependencies]
axum = { version = "*", default-features = false, features = ["json"] }
base64 = "0.22"
chrono = "0.4"
console_error_panic_hook = "*"
console_log = "*"
js-sys = "*"
jsonwebtoken = "9"
log = "*"
serde = { version = "1", features = ["derive"] }
serde_json = "1"
thiserror = "*"
tower-http = { version = "*", features = ["cors"] }
tower-service = "*"
wasm-bindgen = "*"
wasm-bindgen-futures = "*"
web-sys = { version = "*", features = ["Crypto", "CryptoKey", "Pbkdf2Params", "SubtleCrypto", "WorkerGlobalScope"] }
worker = { version = "*", features = ["http", "axum", "d1"] }

[dev-dependencies]
pbkdf2 = "0.12"
sha2 = "0.10"
