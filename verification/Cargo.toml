[package]
name = "native_commands"
version = "0.1.0"
edition = "2021"
publish = false

[dependencies]
jni = "0.21"
tauri = { version = "2", default-features = false, features = ["wry"] }

[dev-dependencies]
jni = { version = "0.21", features = ["invocation"] }
