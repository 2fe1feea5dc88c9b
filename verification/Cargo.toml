[package]
name = "voxworld_web"
version = "0.1.0"
edition = "2021"
publish = false

[dependencies]
clap = { version = "4", features = ["derive", "env"] }
console_error_panic_hook = "0.1"
futures-util = { version = "0.3", features = ["sink"] }
rayon = "1"
serde = { version = "1", features = ["derive"] }
serde_json = "1"
tokio = { version = "1", features = ["full"] }
tokio-tungstenite = "*"
tracing = "0.1"
tracing-subscriber = { version = "0.3", features = ["env-filter", "fmt"] }
vek = "*"
wasm-bindgen = "0.2"
wasm-bindgen-futures = "0.4"
web-sys = { version = "0.3", features = ["BinaryType", "CanvasRenderingContext2d", "CloseEvent", "CssStyleDeclaration", "Document", "Element", "ErrorEvent", "Event", "EventTarget", "HtmlButtonElement", "HtmlCanvasElement", "HtmlElement", "HtmlInputElement", "KeyboardEvent", "MessageEvent", "WebSocket", "Window", "console"] }
wgpu = "26"
