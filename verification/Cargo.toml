[package]
name = "sortasecret"
version = "0.1.0"
edition = "2021"
publish = false

[dependencies]
askama = "*"
base16 = "0.2"
clap = "2"
cryptoxide = "*"
getrandom = "0.2"
js-sys = "0.3"
mime_guess = "2"
serde = { version = "1", features = ["derive"] }
serde_json = "1"
serde_urlencoded = "0.7"
snafu = "*"
sodiumoxide = "0.2"
tokio = { version = "1", features = ["rt"] }
url = "2"
wasm-bindgen = "0.2"
wasm-bindgen-futures = "0.4"
web-sys = { version = "0.3", features = ["FormData", "Headers", "Request", "RequestInit", "Response", "ResponseInit", "ServiceWorkerGlobalScope", "WorkerGlobalScope"] }

[dev-dependencies]
quickcheck = "1"
