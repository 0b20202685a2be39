[package]
name = "lux-lib"
version = "0.1.0"
edition = "2021"
publish = false

[dependencies]
clap = { version = "4", features = ["derive"] }
eyre = "0.6"
itertools = "0.13"
mlua = { version = "0.10", features = ["lua54", "vendored"] }
serde = { version = "1", features = ["derive"] }
serde_json = "1"
shell-words = "1"
text_trees = "0.1"
thiserror = "2"
tokio = { version = "1", features = ["process", "rt", "macros"] }
which = "7"
