[package]
name = "abylab_tui"
version = "0.1.0"
edition = "2021"
publish = false

[dependencies]
crossterm = "*"
ratatui = "*"
ratatui-explorer = "*"
ratatui-textarea = "*"
serde = { version = "1", features = ["derive"] }
serde_json = "1"
tokio = { version = "1", features = ["sync", "rt"] }
unicode-segmentation = "1"
unicode-width = "*"
