[package]
name = "issloc"
version = "0.1.0"
edition = "2021"
publish = false

[dependencies]
crossterm = "0.27"
log = "0.4"
ratatui = "0.26"
serde = { version = "1", features = ["derive"] }
ureq = { version = "2", features = ["json"] }
