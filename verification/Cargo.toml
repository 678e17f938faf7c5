[package]
name = "frontmatter_preprocessor"
version = "0.1.0"
edition = "2021"
publish = false

[dependencies]
clap = "3"
gray_matter = "0.2"
mdbook = { version = "0.4", default-features = false }
serde = { version = "1", features = ["derive"] }
