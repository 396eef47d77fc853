[package]
name = "browser_rs"
version = "0.1.0"
edition = "2021"
publish = false

[dependencies]
web-sys = { version = "0.3", features = ["Window", "Document", "Element", "HtmlElement", "HtmlInputElement", "KeyboardEvent", "NodeList", "Node", "EventTarget", "Location"] }
gloo-timers = "0.3"
