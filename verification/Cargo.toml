[package]
name = "site_mirror"
version = "0.1.0"
edition = "2021"
publish = false

[dependencies]
url = "2"
minifier = "0.3"
select = "0.6"
reqwest = { version = "0.12", default-features = false, features = ["blocking"] }
