[package]
name = "typed_select"
version = "0.1.0"
edition = "2021"
publish = false

[dependencies]
yew = { version = "=0.23.0", features = ["csr"] }
log = "=0.4.34"
strum = "=0.28.0"
strum_macros = "=0.28.0"
web_logger = "=0.2.0"
web-sys = { version = "=0.3.106", features = ["HtmlSelectElement"] }
