[package]
name = "idb"
version = "0.1.0"
edition = "2021"
publish = false

[dependencies]
js-sys = "*"
wasm-bindgen = "*"
tokio = { version = "*", default-features = false, features = ["sync", "macros"] }
web-sys = { version = "*", features = ["DomException", "DomStringList", "Event", "EventTarget", "IdbCursorDirection", "IdbDatabase", "IdbIndex", "IdbIndexParameters", "IdbKeyRange", "IdbObjectStore", "IdbRequest", "IdbTransaction", "IdbTransactionMode"] }
