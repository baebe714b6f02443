[package]
name = "colstract"
version = "0.1.0"
edition = "2021"
publish = false

[dependencies]
handlebars = "=6.4.4"
regex = "=1.13.1"
serde = { version = "=1.0.229", features = ["derive"] }
serde_json = "=1.0.154"
text-colorizer = "=1.0.0"
toml = "=1.1.8"
