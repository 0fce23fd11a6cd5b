[package]
name = "atuin_theme"
version = "0.1.0"
edition = "2021"
publish = false

[dependencies]
palette = { version = "0.7", default-features = false, features = ["named_from_str", "std"] }
crossterm = { version = "0.27" }
ratatui = { version = "0.27" }
config = { version = "0.13", default-features = false, features = ["toml"] }
log = { version = "0.4" }
serde = { version = "1", features = ["derive"] }
time = { version = "0.3", features = ["macros", "formatting", "parsing"] }
