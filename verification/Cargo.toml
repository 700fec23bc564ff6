[package]
name = "seonbi_form"
version = "0.1.0"
edition = "2021"
publish = false

[dependencies]
tracing = "0.1"
wasm-bindgen = "0.2"
web-sys = { version = "0.3", features = ["HtmlTextAreaElement"] }
yew = "0.19"
