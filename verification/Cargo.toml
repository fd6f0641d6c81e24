[package]
name = "ui_core"
version = "0.1.0"
edition = "2021"
publish = false

[dependencies]
anyhow = "1"
js-sys = "0.3"
ncollide2d = "0.33"
wasm-bindgen = "0.2"
web-sys = { version = "0.3", features = ["console", "CssStyleDeclaration", "Document", "DocumentFragment", "Element", "Event", "EventTarget", "HtmlCanvasElement", "HtmlDivElement", "HtmlElement", "HtmlHrElement", "HtmlInputElement", "HtmlLabelElement", "HtmlTemplateElement", "InputEvent", "MouseEvent", "Node", "PointerEvent", "ResizeObserver", "UiEvent", "Window"] }
