[package]
name = "pdok_apis"
version = "0.1.0"
edition = "2021"
publish = false

[dependencies]
geo = "*"
geojson = "*"
reqwest = { version = "0.12", features = ["json"] }
rijksdriehoek = "*"
serde = { version = "1", features = ["derive"] }
serde_json = "1"
url = "2"
