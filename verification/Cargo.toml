[package]
name = "csv_editor"
version = "0.1.0"
edition = "2021"
publish = false

[dependencies]
chrono = "0.4"
crossterm = "0.27"
csv = "1"
ratatui = "0.26"
