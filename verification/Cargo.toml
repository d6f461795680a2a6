[package]
name = "godric"
version = "0.1.0"
edition = "2021"
publish = false

[dependencies]
scraper = "*"
url = "*"
reqwest = { version = "*", default-features = false }
tokio = { version = "*", features = ["rt", "macros", "time", "sync"] }
thirtyfour = "*"
sysinfo = "*"
rand = "*"
