[package]
name = "ansem_punch"
version = "0.1.0"
edition = "2021"
publish = false

[dependencies]
rand = "=0.8.8"
futures = "=0.3.34"
wasm-bindgen = "=0.2.130"
wasm-bindgen-futures = "=0.4.80"
tokio_with_wasm = { version = "=0.9.2", features = ["time"] }
tokio = { version = "=1.54.1", features = ["time"] }
web-sys = { version = "=0.3.107", features = ["Window", "Document", "Element", "HtmlElement", "HtmlImageElement", "HtmlAudioElement", "HtmlMediaElement", "AudioContext", "BaseAudioContext", "Event", "EventTarget", "console"] }
