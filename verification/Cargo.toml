[package]
name = "toml_config"
version = "0.1.0"
edition = "2021"

[dependencies]
serde = "*"
serde_path_to_error = "*"
toml = "*"
toml_edit = "*"
