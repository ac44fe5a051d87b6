[package]
name = "blog_backend"
version = "0.1.0"
edition = "2021"
publish = false

[dependencies]
actix-web = "4"
diesel = { version = "2", features = ["postgres", "r2d2"] }
dotenv = "0.15"
