[package]
name = "writingbuddy"
version = "0.1.0"
edition = "2021"
publish = false

[dependencies]
textwrap = { version = "0.16", default-features = false }
chrono = "0.4"
config = "0.13"
crossterm = "0.25"
dirs = "4.0"
fluent = "0.16"
fluent-langneg = "0.13"
structopt = "0.3"
tui = "0.19"
unic-langid = { version = "0.9", features = ["macros"] }
