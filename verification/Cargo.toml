[package]
name = "kapp"
version = "0.1.0"
edition = "2021"
publish = false

[dependencies]
raw-window-handle = "0.3"
objc = "0.2"
winapi = { version = "0.3", features = ["winuser", "wingdi", "libloaderapi", "windef", "minwindef", "windowsx", "shellscalingapi"] }
wasm-bindgen = "0.2"
web-sys = { version = "0.3", features = ["Window", "Document", "Element", "EventTarget", "Event", "HtmlCanvasElement", "WebGlContextAttributes", "WebGlRenderingContext", "WebGl2RenderingContext", "MouseEvent", "KeyboardEvent"] }
fermium = "20016.1.1"
