[package]
name = "blog"
version = "0.1.0"
edition = "2021"
publish = false

[dependencies]
actix-web = "4"
diesel = { version = "2", features = ["postgres", "r2d2"] }
dotenv = "0.15"
serde = { version = "1", features = ["derive"] }
tera = { version = "1", default-features = false }
