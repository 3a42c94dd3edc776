[package]
name = "mapboxgl"
version = "0.1.0"
edition = "2021"
publish = false

[dependencies]
uuid = { version = "=1.29.0", features = ["v4", "js"] }
serde = { version = "=1.0.229", features = ["derive"] }
serde_json = "=1.0.154"
serde-wasm-bindgen = "=0.6.5"
wasm-bindgen = "=0.2.129"
js-sys = "=0.3.106"
web-sys = { version = "=0.3.106", features = ["console", "DragEvent", "HtmlElement", "MouseEvent", "TouchEvent", "WheelEvent"] }
geojson = "=0.24.2"
log = "=0.4.34"
thiserror = "=1.0.69"
