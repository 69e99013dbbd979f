[package]
name = "walk_the_dog"
version = "0.1.0"
edition = "2021"
publish = false

[dependencies]
anyhow = "=1.0.104"
async-trait = "=0.1.92"
console_error_panic_hook = "=0.1.7"
futures = "=0.3.34"
serde = { version = "=1.0.229", features = ["derive"] }
wasm-bindgen = { version = "=0.2.129", features = ["serde-serialize"] }
wasm-bindgen-futures = "=0.4.79"
web-sys = { version = "=0.3.106", features = ["Window", "Document", "Element", "HtmlCanvasElement", "HtmlElement", "CanvasRenderingContext2d", "Response", "HtmlImageElement", "KeyboardEvent", "Performance", "console"] }
