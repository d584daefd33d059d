[package]
name = "im_client"
version = "0.1.0"
edition = "2021"
publish = false

[dependencies]
chrono = "0.4"
regex = "1"
zxcvbn = "2"
nanoid = "0.4"
serde = { version = "1", features = ["derive"] }
yew = { version = "0.21", features = ["csr"] }
yew-router = "0.18"
gloo = "0.10"
wasm-bindgen = "0.2"
wasm-bindgen-futures = "0.4"
web-sys = { version = "0.3", features = ["MediaStream", "MediaStreamConstraints", "MediaStreamTrack", "MediaDevices", "Navigator", "Window", "HtmlInputElement", "KeyboardEvent", "SubmitEvent", "InputEvent"] }
indexmap = "2"
once_cell = "1"
async-trait = "0.1"
log = "0.4"
