[package]
name = "rust_md_to_pdf"
version = "0.1.0"
edition = "2021"
publish = false

[dependencies]
actix-cors = "*"
actix-web = { version = "4", default-features = false, features = ["macros"] }
comrak = { version = "*", default-features = false }
serde = { version = "1", features = ["derive"] }
uuid = { version = "1", features = ["v4"] }
